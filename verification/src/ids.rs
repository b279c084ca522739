use vstd::prelude::*;
use vstd::arithmetic::power::pow;
use vstd::arithmetic::power2::pow2;

verus! {

/// The lower-case hexadecimal digit of `n` (0 to 15).
pub open spec fn hex_digit(n: int) -> char {
    if n < 10 {
        ('0' as int + n) as char
    } else {
        ('a' as int + (n - 10)) as char
    }
}

/// The `k`-th of the 32 hexadecimal digits of `id`, most significant first.
pub open spec fn hex_nibble(id: u128, k: int) -> int {
    (id as int / pow(16, (31 - k) as nat)) % 16
}

/// The 32 lower-case hexadecimal digits of `id`, most significant first.
pub open spec fn hex_digits(id: u128) -> Seq<char> {
    Seq::new(32, |k: int| hex_digit(hex_nibble(id, k)))
}

/// The hyphenated text of a UUID, `xxxxxxxx-xxxx-xxxx-xxxx-xxxxxxxxxxxx`, in
/// lower case.
pub open spec fn uuid_text(id: u128) -> Seq<char> {
    let h = hex_digits(id);
    h.subrange(0, 8) + seq!['-'] + h.subrange(8, 12) + seq!['-'] + h.subrange(12, 16) + seq!['-']
        + h.subrange(16, 20) + seq!['-'] + h.subrange(20, 32)
}

/// Whether `c` is a lower-case hexadecimal digit.
pub open spec fn is_hex_digit(c: char) -> bool {
    ('0' <= c && c <= '9') || ('a' <= c && c <= 'f')
}

/// The text of a UUID has 36 characters: hyphens at places 8, 13, 18 and 23
/// and lower-case hexadecimal digits everywhere else.
pub proof fn lemma_uuid_text_shape(id: u128)
    ensures
        uuid_text(id).len() == 36,
        forall|k: int|
            0 <= k < 36 ==> if k == 8 || k == 13 || k == 18 || k == 23 {
                #[trigger] uuid_text(id)[k] == '-'
            } else {
                is_hex_digit(uuid_text(id)[k])
            },
{
    assert forall|k: int| 0 <= k < 32 implies is_hex_digit(#[trigger] hex_digits(id)[k]) by {
        vstd::arithmetic::power::lemma_pow_positive(16, (31 - k) as nat);
        let n = hex_nibble(id, k);
        assert(0 <= n < 16);
    }
    let t = uuid_text(id);
    let h = hex_digits(id);
    assert forall|k: int| 0 <= k < 36 && !(k == 8 || k == 13 || k == 18 || k == 23) implies is_hex_digit(
        #[trigger] t[k],
    ) by {
        if k < 8 {
            assert(t[k] == h[k]);
        } else if k < 13 {
            assert(t[k] == h[k - 1]);
        } else if k < 18 {
            assert(t[k] == h[k - 2]);
        } else if k < 23 {
            assert(t[k] == h[k - 3]);
        } else {
            assert(t[k] == h[k - 4]);
        }
    }
}

/// Whether `id` is a random (version 4, RFC 4122 variant) UUID: its version
/// digit is 4 and the two top bits of its variant are `10`.
pub open spec fn is_random_uuid(id: u128) -> bool {
    &&& (id as int / pow2(76) as int) % 16 == 4
    &&& (id as int / pow2(62) as int) % 4 == 2
}

/// The text of a UUID. Calls `uuid::Uuid::from_u128` and its `to_string`,
/// which writes the hyphenated lower-case form of the UUID's big-endian bytes.
#[verifier::external_body]
pub(crate) fn uuid_string(id: u128) -> (text: String)
    ensures
        text@ == uuid_text(id),
{
    uuid::Uuid::from_u128(id).to_string()
}

/// A fresh random UUID. Calls `uuid::Uuid::new_v4`, which sets the version
/// and variant bits of a random value; nothing else is claimed of the result.
#[verifier::external_body]
pub(crate) fn new_random_uuid() -> (id: u128)
    ensures
        is_random_uuid(id),
{
    uuid::Uuid::new_v4().as_u128()
}

} // verus!
