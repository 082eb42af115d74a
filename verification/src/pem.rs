//! Reconstruction of PEM armor around the issuer's raw base64 key body.
//!
//! The provider hands the RSA public key out as a bare base64 body. The
//! downstream key parser is strict about the canonical PEM shape: a fixed
//! BEGIN line, the body broken after every 64th character, and a fixed END
//! line. The wrapping here is byte-exact by contract.

use vstd::prelude::*;

use crate::auth::Issuer;

verus! {

/// The base64 body with a line break inserted after every 64th character.
/// No break is inserted at the very end: a body whose length is an exact
/// multiple of 64 ends with its last character, not with a break.
pub open spec fn pem_body(s: Seq<char>) -> Seq<char>
    decreases s.len(),
{
    if s.len() <= 64 {
        s
    } else {
        s.take(64) + seq!['\n'] + pem_body(s.skip(64))
    }
}

/// The complete armored key: BEGIN line, wrapped body, END line.
pub open spec fn pem_of(s: Seq<char>) -> Seq<char> {
    "-----BEGIN PUBLIC KEY-----\n"@ + pem_body(s) + "\n-----END PUBLIC KEY-----"@
}

/// How many internal line breaks the wrapped body of a key of the given
/// length carries: one after each full 64-character line that is followed
/// by at least one more character.
pub open spec fn pem_breaks(len: nat) -> nat {
    if len == 0 {
        0
    } else {
        (((len - 1) as nat) / 64) as nat
    }
}

/// Wrapping law, body part: the wrapped body of a key of length `L` holds
/// exactly `pem_breaks(L)` line breaks — `floor((L-1)/64)` for a non-empty
/// key — and a position of the wrapped body is a break exactly when it
/// follows a full 64-character line; every other position carries the key's
/// own character, in order.
pub proof fn lemma_pem_body_shape(s: Seq<char>)
    ensures
        pem_body(s).len() == s.len() + pem_breaks(s.len()),
        forall|i: int|
            0 <= i < pem_body(s).len() ==> pem_body(s)[i] == (if i % 65 == 64 {
                '\n'
            } else {
                s[i - i / 65]
            }),
    decreases s.len(),
{
    if s.len() <= 64 {
    } else {
        lemma_pem_body_shape(s.skip(64));
        let rest = pem_body(s.skip(64));
        assert forall|i: int| 0 <= i < pem_body(s).len() implies pem_body(s)[i] == (if i % 65
            == 64 {
            '\n'
        } else {
            s[i - i / 65]
        }) by {
            if i < 64 {
                assert(i / 65 == 0);
            } else if i == 64 {
            } else {
                assert(pem_body(s)[i] == rest[i - 65]);
                assert((i - 65) % 65 == i % 65);
                assert((i - 65) / 65 == i / 65 - 1);
                if (i - 65) % 65 != 64 {
                    assert(rest[i - 65] == s.skip(64)[(i - 65) - (i - 65) / 65]);
                    assert(s.skip(64)[(i - 65) - (i - 65) / 65] == s[i - i / 65]);
                }
            }
        }
    }
}

/// Wrapping law, armor part: the armored key always starts with the exact
/// BEGIN line, always ends with the exact END line with nothing after it,
/// and carries the wrapped body, whole, in between.
pub proof fn lemma_pem_armor(s: Seq<char>)
    ensures
        pem_of(s).len() == 27 + pem_body(s).len() + 25,
        pem_of(s).take(27) == "-----BEGIN PUBLIC KEY-----\n"@,
        pem_of(s).skip(pem_of(s).len() - 25) == "\n-----END PUBLIC KEY-----"@,
        pem_of(s).subrange(27, pem_of(s).len() - 25) == pem_body(s),
{
    reveal_strlit("-----BEGIN PUBLIC KEY-----\n");
    reveal_strlit("\n-----END PUBLIC KEY-----");
    assert(pem_of(s).take(27) =~= "-----BEGIN PUBLIC KEY-----\n"@);
    assert(pem_of(s).skip(pem_of(s).len() - 25) =~= "\n-----END PUBLIC KEY-----"@);
    assert(pem_of(s).subrange(27, pem_of(s).len() - 25) =~= pem_body(s));
}

impl Issuer {
    /// Rebuild the standard PEM armor around the provider's bare base64
    /// key body: BEGIN line, the body re-wrapped with a break after every
    /// 64th character, END line. Pure and total; a body that is not valid
    /// base64 is wrapped all the same, and only the downstream key parser
    /// rejects it.
    pub fn get_pem_public_key(&self) -> (r: String)
        ensures
            r@ == pem_of(self.public_key@),
    {
        let s: &str = self.public_key.as_str();
        let n: usize = s.unicode_len();
        let mut out: String = String::from_str("-----BEGIN PUBLIC KEY-----\n");
        let mut i: usize = 0;
        proof {
            assert(s@.skip(0) =~= s@);
        }
        while i < n
            invariant
                i <= n,
                n == s@.len(),
                s@ == self.public_key@,
                out@ + pem_body(s@.skip(i as int)) == "-----BEGIN PUBLIC KEY-----\n"@ + pem_body(
                    s@,
                ),
            decreases n - i,
        {
            let end: usize = if n - i > 64 {
                i + 64
            } else {
                n
            };
            let piece: &str = s.substring_char(i, end);
            out.append(piece);
            if end < n {
                out.append("\n");
                proof {
                    reveal_strlit("\n");
                    assert("\n"@ =~= seq!['\n']);
                    assert(s@.skip(i as int).take(64) =~= piece@);
                    assert(s@.skip(i as int).skip(64) =~= s@.skip(end as int));
                }
            } else {
                proof {
                    assert(s@.skip(i as int) =~= piece@);
                    assert(s@.skip(end as int) =~= Seq::<char>::empty());
                }
            }
            i = end;
        }
        proof {
            assert(s@.skip(n as int) =~= Seq::<char>::empty());
        }
        out.append("\n-----END PUBLIC KEY-----");
        proof {
            assert(out@ =~= pem_of(self.public_key@));
        }
        out
    }
}

} // verus!
