//! The keyed digests that authenticate a login and a session upload.
//!
//! A digest is the lower-case hexadecimal text of the SHA-1 hash of a message:
//! the request's fields written one after another in a fixed order, closed by
//! the shared secret.

use crate::decimal::{digit_char, int_text, int_to_text, mileage_text, mileage_to_text};
use vstd::prelude::*;

verus! {

/// The shared secret that closes every signed message.
pub const SALT: &'static str = "itauVfnexHiRigZ6";

/// The SHA-1 hash of a byte string.
pub uninterp spec fn sha1_of(data: Seq<u8>) -> Seq<u8>;

/// The lower-case character that writes the hexadecimal digit `n`.
pub open spec fn hex_digit(n: int) -> char {
    if n < 10 {
        digit_char(n)
    } else if n == 10 {
        'a'
    } else if n == 11 {
        'b'
    } else if n == 12 {
        'c'
    } else if n == 13 {
        'd'
    } else if n == 14 {
        'e'
    } else {
        'f'
    }
}

/// The lower-case hexadecimal text of a byte string: two digits for each
/// byte, the high half first.
pub open spec fn hex_text(bytes: Seq<u8>) -> Seq<char> {
    Seq::new(
        2 * bytes.len(),
        |i: int|
            if i % 2 == 0 {
                hex_digit(bytes[i / 2] as int / 16)
            } else {
                hex_digit(bytes[i / 2] as int % 16)
            },
    )
}

/// The digest of a message: the hexadecimal text of the SHA-1 hash of its
/// UTF-8 bytes.
pub open spec fn digest_text(message: Seq<char>) -> Seq<char> {
    hex_text(sha1_of(vstd::utf8::encode_utf8(message)))
}

/// The message signed at login: user name, password, the marker `1` and the
/// shared secret.
pub open spec fn login_message(username: Seq<char>, password: Seq<char>) -> Seq<char> {
    username + password + seq!['1'] + SALT@
}

/// The message signed for an upload: mileage, the marker `1`, start time,
/// calories, average pace, keep-time, pace number, mileage again, the marker
/// `1` and the shared secret.
pub open spec fn upload_message(
    mileage: int,
    start_text: Seq<char>,
    calorie: int,
    ave_pace: int,
    keep_time: int,
    pace_number: int,
) -> Seq<char> {
    mileage_text(mileage) + seq!['1'] + start_text + int_text(calorie) + int_text(ave_pace)
        + int_text(keep_time) + int_text(pace_number) + mileage_text(mileage) + seq!['1'] + SALT@
}

/// Calls `sha1::Sha1::digest` (the `Digest` trait of the `sha1` crate) on
/// `data`, with a hasher of its own for each call. Trusted: the twenty bytes
/// returned are the SHA-1 hash of `data`, a function of `data` alone.
#[verifier::external_body]
fn sha1_digest(data: &[u8]) -> (r: Vec<u8>)
    ensures
        r@ == sha1_of(data@),
        r@.len() == 20,
{
    <sha1::Sha1 as sha1::Digest>::digest(data).to_vec()
}

/// Calls `hex::encode` on `bytes`. Trusted: the result writes each byte as
/// two lower-case hexadecimal digits, the high half first.
#[verifier::external_body]
fn hex_encode(bytes: &[u8]) -> (r: String)
    ensures
        r@ == hex_text(bytes@),
{
    hex::encode(bytes)
}

/// The digest of `message`.
pub fn sign(message: &str) -> (r: String)
    ensures
        r@ == digest_text(message@),
        r@.len() == 40,
{
    let hash = sha1_digest(message.as_bytes());
    hex_encode(hash.as_slice())
}

/// The text of the message signed at login.
pub fn login_message_text(username: &str, password: &str) -> (r: String)
    ensures
        r@ == login_message(username@, password@),
{
    let mut out = String::new();
    out.append(username);
    out.append(password);
    proof {
        reveal_strlit("1");
    }
    out.append("1");
    out.append(SALT);
    assert(out@ =~= login_message(username@, password@));
    out
}

/// The digest sent with a login request.
pub fn login_digest(username: &str, password: &str) -> (r: String)
    ensures
        r@ == digest_text(login_message(username@, password@)),
        r@.len() == 40,
{
    let message = login_message_text(username, password);
    sign(message.as_str())
}

/// The text of the message signed for an upload.
pub fn upload_message_text(
    mileage: i64,
    start_text: &str,
    calorie: i64,
    ave_pace: i64,
    keep_time: i64,
    pace_number: i64,
) -> (r: String)
    ensures
        r@ == upload_message(
            mileage as int,
            start_text@,
            calorie as int,
            ave_pace as int,
            keep_time as int,
            pace_number as int,
        ),
{
    proof {
        reveal_strlit("1");
    }
    let mileage_part = mileage_to_text(mileage);
    let mut out = String::new();
    out.append(mileage_part.as_str());
    out.append("1");
    out.append(start_text);
    out.append(int_to_text(calorie).as_str());
    out.append(int_to_text(ave_pace).as_str());
    out.append(int_to_text(keep_time).as_str());
    out.append(int_to_text(pace_number).as_str());
    out.append(mileage_part.as_str());
    out.append("1");
    out.append(SALT);
    assert(out@ =~= upload_message(
        mileage as int,
        start_text@,
        calorie as int,
        ave_pace as int,
        keep_time as int,
        pace_number as int,
    ));
    out
}

/// The digest sent with an upload request.
pub fn upload_digest(
    mileage: i64,
    start_text: &str,
    calorie: i64,
    ave_pace: i64,
    keep_time: i64,
    pace_number: i64,
) -> (r: String)
    ensures
        r@ == digest_text(
            upload_message(
                mileage as int,
                start_text@,
                calorie as int,
                ave_pace as int,
                keep_time as int,
                pace_number as int,
            ),
        ),
        r@.len() == 40,
{
    let message = upload_message_text(
        mileage,
        start_text,
        calorie,
        ave_pace,
        keep_time,
        pace_number,
    );
    sign(message.as_str())
}

/// Two different texts stay different when the same text follows each.
pub proof fn lemma_same_back(a: Seq<char>, b: Seq<char>, back: Seq<char>)
    requires
        a != b,
    ensures
        a + back != b + back,
{
    if a + back == b + back {
        assert((a + back).len() == a.len() + back.len());
        assert((b + back).len() == b.len() + back.len());
        assert forall|i: int| 0 <= i < a.len() implies a[i] == b[i] by {
            assert((a + back)[i] == a[i]);
            assert((b + back)[i] == b[i]);
        }
        assert(a =~= b);
    }
}

/// Two different texts stay different when each follows the same text.
pub proof fn lemma_same_front(front: Seq<char>, a: Seq<char>, b: Seq<char>)
    requires
        a != b,
    ensures
        front + a != front + b,
{
    if front + a == front + b {
        assert((front + a).len() == front.len() + a.len());
        assert((front + b).len() == front.len() + b.len());
        assert forall|i: int| 0 <= i < a.len() implies a[i] == b[i] by {
            assert((front + a)[front.len() + i] == a[i]);
            assert((front + b)[front.len() + i] == b[i]);
        }
        assert(a =~= b);
    }
}

/// The number of fields in which two uploads differ.
pub open spec fn fields_apart(
    mileage: (int, int),
    start_text: (Seq<char>, Seq<char>),
    calorie: (int, int),
    ave_pace: (int, int),
    keep_time: (int, int),
    pace_number: (int, int),
) -> int {
    (if mileage.0 != mileage.1 {
        1int
    } else {
        0int
    }) + (if start_text.0 != start_text.1 {
        1int
    } else {
        0int
    }) + (if calorie.0 != calorie.1 {
        1int
    } else {
        0int
    }) + (if ave_pace.0 != ave_pace.1 {
        1int
    } else {
        0int
    }) + (if keep_time.0 != keep_time.1 {
        1int
    } else {
        0int
    }) + (if pace_number.0 != pace_number.1 {
        1int
    } else {
        0int
    })
}

/// Two uploads of different mileage that agree in every other field are
/// signed over different messages.
proof fn lemma_mileage_apart(
    mileage: (int, int),
    t: Seq<char>,
    c: Seq<char>,
    a: Seq<char>,
    k: Seq<char>,
    p: Seq<char>,
)
    requires
        mileage.0 != mileage.1,
    ensures
        mileage_text(mileage.0) + seq!['1'] + t + c + a + k + p + mileage_text(mileage.0)
            + seq!['1'] + SALT@ != mileage_text(mileage.1) + seq!['1'] + t + c + a + k + p
            + mileage_text(mileage.1) + seq!['1'] + SALT@,
{
    let m = mileage_text(mileage.0);
    let n = mileage_text(mileage.1);
    if m == n {
        crate::roundtrip::lemma_mileage_text_injective(mileage.0, mileage.1);
    }
    let one = seq!['1'];
    let l1 = m + one;
    let l2 = l1 + t;
    let l3 = l2 + c;
    let l4 = l3 + a;
    let l5 = l4 + k;
    let l6 = l5 + p;
    let l7 = l6 + m;
    let l8 = l7 + one;
    let l9 = l8 + SALT@;
    let r1 = n + one;
    let r2 = r1 + t;
    let r3 = r2 + c;
    let r4 = r3 + a;
    let r5 = r4 + k;
    let r6 = r5 + p;
    let r7 = r6 + n;
    let r8 = r7 + one;
    let r9 = r8 + SALT@;
    if l9 == r9 {
        assert(l9.len() == 2 * m.len() + 2 + t.len() + c.len() + a.len() + k.len() + p.len()
            + SALT@.len());
        assert(r9.len() == 2 * n.len() + 2 + t.len() + c.len() + a.len() + k.len() + p.len()
            + SALT@.len());
        assert(m.len() == n.len());
        assert forall|i: int| 0 <= i < m.len() implies m[i] == n[i] by {
            assert(l1[i] == m[i] && l2[i] == l1[i] && l3[i] == l2[i] && l4[i] == l3[i]);
            assert(l5[i] == l4[i] && l6[i] == l5[i] && l7[i] == l6[i] && l8[i] == l7[i]);
            assert(l9[i] == l8[i]);
            assert(r1[i] == n[i] && r2[i] == r1[i] && r3[i] == r2[i] && r4[i] == r3[i]);
            assert(r5[i] == r4[i] && r6[i] == r5[i] && r7[i] == r6[i] && r8[i] == r7[i]);
            assert(r9[i] == r8[i]);
        }
        assert(m =~= n);
    }
}

/// Two uploads that differ in exactly one field are signed over different
/// messages: no change of a single field, such as a keep-time one second
/// longer, leaves the signed message as it was.
pub proof fn lemma_upload_message_tells_fields_apart(
    mileage: (int, int),
    start_text: (Seq<char>, Seq<char>),
    calorie: (int, int),
    ave_pace: (int, int),
    keep_time: (int, int),
    pace_number: (int, int),
)
    requires
        fields_apart(mileage, start_text, calorie, ave_pace, keep_time, pace_number) == 1,
    ensures
        upload_message(
            mileage.0,
            start_text.0,
            calorie.0,
            ave_pace.0,
            keep_time.0,
            pace_number.0,
        ) != upload_message(
            mileage.1,
            start_text.1,
            calorie.1,
            ave_pace.1,
            keep_time.1,
            pace_number.1,
        ),
{
    let m = mileage_text(mileage.0);
    let one = seq!['1'];
    let c = (int_text(calorie.0), int_text(calorie.1));
    let a = (int_text(ave_pace.0), int_text(ave_pace.1));
    let k = (int_text(keep_time.0), int_text(keep_time.1));
    let p = (int_text(pace_number.0), int_text(pace_number.1));
    let t = start_text;
    if mileage.0 != mileage.1 {
        lemma_mileage_apart(mileage, t.0, c.0, a.0, k.0, p.0);
    } else {
        let l2 = m + one + t.0;
        let r2 = m + one + t.1;
        let l3 = l2 + c.0;
        let r3 = r2 + c.1;
        let l4 = l3 + a.0;
        let r4 = r3 + a.1;
        let l5 = l4 + k.0;
        let r5 = r4 + k.1;
        let l6 = l5 + p.0;
        let r6 = r5 + p.1;
        if t.0 != t.1 {
            lemma_same_front(m + one, t.0, t.1);
        }
        if calorie.0 != calorie.1 {
            if c.0 == c.1 {
                crate::roundtrip::lemma_int_text_injective(calorie.0, calorie.1);
            }
            lemma_same_front(l2, c.0, c.1);
        }
        if l2 != r2 {
            lemma_same_back(l2, r2, c.0);
        }
        if ave_pace.0 != ave_pace.1 {
            if a.0 == a.1 {
                crate::roundtrip::lemma_int_text_injective(ave_pace.0, ave_pace.1);
            }
            lemma_same_front(l3, a.0, a.1);
        }
        if l3 != r3 {
            lemma_same_back(l3, r3, a.0);
        }
        if keep_time.0 != keep_time.1 {
            if k.0 == k.1 {
                crate::roundtrip::lemma_int_text_injective(keep_time.0, keep_time.1);
            }
            lemma_same_front(l4, k.0, k.1);
        }
        if l4 != r4 {
            lemma_same_back(l4, r4, k.0);
        }
        if pace_number.0 != pace_number.1 {
            if p.0 == p.1 {
                crate::roundtrip::lemma_int_text_injective(pace_number.0, pace_number.1);
            }
            lemma_same_front(l5, p.0, p.1);
        }
        if l5 != r5 {
            lemma_same_back(l5, r5, p.0);
        }
        assert(l6 != r6);
        lemma_same_back(l6, r6, m);
        lemma_same_back(l6 + m, r6 + m, one);
        lemma_same_back(l6 + m + one, r6 + m + one, SALT@);
    }
}

/// Two logins that differ in the user name only, or in the password only,
/// are signed over different messages.
pub proof fn lemma_login_message_tells_fields_apart(
    username: (Seq<char>, Seq<char>),
    password: (Seq<char>, Seq<char>),
)
    requires
        (username.0 != username.1) != (password.0 != password.1),
    ensures
        login_message(username.0, password.0) != login_message(username.1, password.1),
{
    let one = seq!['1'];
    if username.0 != username.1 {
        lemma_same_back(username.0, username.1, password.0);
    } else {
        lemma_same_front(username.0, password.0, password.1);
    }
    lemma_same_back(username.0 + password.0, username.1 + password.1, one);
    lemma_same_back(username.0 + password.0 + one, username.1 + password.1 + one, SALT@);
}

} // verus!
