use vstd::prelude::*;
use vstd::slice::slice_subrange;

verus! {

/// The text that UTF-16 decoding yields for a well-formed run of code units.
pub uninterp spec fn utf16_text(units: Seq<u16>) -> Seq<char>;

/// Whether a run of UTF-16 code units is well-formed.
pub uninterp spec fn utf16_ok(units: Seq<u16>) -> bool;

/// Relies on widestring::U16Str::to_string: decoding depends on the code
/// units alone, and succeeds exactly when they are well-formed UTF-16
/// (`U16Str::from_slice` only reinterprets the slice).
#[verifier::external_body]
fn utf16_units_to_string(units: &[u16]) -> (r: Option<String>)
    ensures
        (r is Some) == utf16_ok(units@),
        r matches Some(s) ==> s@ == utf16_text(units@),
{
    widestring::U16Str::from_slice(units).to_string().ok()
}

/// Some code unit of the buffer is a nul terminator.
pub open spec fn has_nul(units: Seq<u16>) -> bool {
    exists|i: int| 0 <= i < units.len() && units[i] == 0
}

/// Position of the first nul terminator (meaningful only when one exists).
pub open spec fn first_nul(units: Seq<u16>) -> int {
    choose|i: int|
        0 <= i < units.len() && units[i] == 0 && (forall|j: int| 0 <= j < i ==> units[j] != 0)
}

/// What a fixed-capacity UTF-16 read stands for: the code units before the
/// first nul terminator, decoded. A missing terminator or ill-formed data
/// yield the empty text, never an error.
pub open spec fn decoded_text(units: Seq<u16>) -> Seq<char> {
    if !has_nul(units) {
        Seq::empty()
    } else {
        let prefix = units.take(first_nul(units));
        if utf16_ok(prefix) {
            utf16_text(prefix)
        } else {
            Seq::empty()
        }
    }
}

/// Decode a raw UTF-16 read: truncate at the first nul terminator and
/// decode the prefix; fall back to the empty string on any failure.
pub fn decode_utf16_buffer(buf: &Vec<u16>) -> (r: String)
    ensures
        r@ == decoded_text(buf@),
{
    let n: usize = buf.len();
    let mut i: usize = 0;
    while i < n
        invariant
            i <= n,
            n == buf@.len(),
            forall|j: int| 0 <= j < i ==> buf@[j] != 0,
        decreases n - i,
    {
        if buf[i] == 0 {
            proof {
                assert(0 <= i < buf@.len() && buf@[i as int] == 0 && (forall|j: int|
                    0 <= j < i ==> buf@[j] != 0));
                let w = first_nul(buf@);
                assert(0 <= w < buf@.len() && buf@[w] == 0 && (forall|j: int|
                    0 <= j < w ==> buf@[j] != 0));
                assert(w == i);
            }
            let prefix: &[u16] = slice_subrange(buf.as_slice(), 0, i);
            assert(prefix@ == buf@.take(i as int));
            match utf16_units_to_string(prefix) {
                Some(s) => {
                    return s;
                },
                None => {
                    return String::new();
                },
            }
        }
        i = i + 1;
    }
    String::new()
}

} // verus!
