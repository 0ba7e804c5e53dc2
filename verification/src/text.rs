//! Character-sequence helpers shared by the modules that build URLs, SQL
//! statements and replies.
use vstd::prelude::*;
use vstd::string::*;

verus! {

/// The characters of a byte string, one character per byte.
pub open spec fn byte_chars(bytes: Seq<u8>) -> Seq<char> {
    Seq::new(bytes.len(), |i: int| bytes[i] as char)
}

/// The views of a sequence of strings.
pub open spec fn string_views(strings: Seq<String>) -> Seq<Seq<char>> {
    strings.map_values(|s: String| s@)
}

/// `parts` joined with `sep` between consecutive parts.
pub open spec fn joined(parts: Seq<Seq<char>>, sep: Seq<char>) -> Seq<char>
    decreases parts.len(),
{
    if parts.len() == 0 {
        Seq::empty()
    } else if parts.len() == 1 {
        parts[0]
    } else {
        joined(parts.drop_last(), sep) + sep + parts.last()
    }
}

/// `String::push` of std, which appends one character.
#[verifier::external_body]
pub(crate) fn push_char(s: &mut String, c: char)
    ensures
        final(s)@ == old(s)@.push(c),
{
    s.push(c);
}

/// A string holding one character per byte of `bytes`, from byte `from` on.
pub fn string_from_bytes(bytes: &[u8], from: usize) -> (r: String)
    requires
        from <= bytes@.len(),
    ensures
        r@ == byte_chars(bytes@.skip(from as int)),
{
    let mut r = String::new();
    let mut i: usize = from;
    while i < bytes.len()
        invariant
            from <= i <= bytes@.len(),
            r@ == byte_chars(bytes@.subrange(from as int, i as int)),
        decreases bytes@.len() - i,
    {
        let b: u8 = bytes[i];
        push_char(&mut r, b as char);
        assert(byte_chars(bytes@.subrange(from as int, i + 1)) =~= byte_chars(
            bytes@.subrange(from as int, i as int),
        ).push(b as char));
        i = i + 1;
    }
    assert(bytes@.subrange(from as int, bytes@.len() as int) =~= bytes@.skip(from as int));
    r
}

/// The parts joined with `sep` between consecutive parts, as `[T]::join` does.
pub fn join_strings(parts: &Vec<String>, sep: &str) -> (r: String)
    ensures
        r@ == joined(string_views(parts@), sep@),
{
    let mut r = String::new();
    let mut i: usize = 0;
    while i < parts.len()
        invariant
            i <= parts@.len(),
            r@ == joined(string_views(parts@).subrange(0, i as int), sep@),
        decreases parts@.len() - i,
    {
        let ghost before = string_views(parts@).subrange(0, i as int);
        let ghost after = string_views(parts@).subrange(0, i + 1);
        assert(after.drop_last() =~= before);
        if i != 0 {
            r.append(sep);
        }
        r.append(parts[i].as_str());
        i = i + 1;
    }
    assert(string_views(parts@).subrange(0, parts@.len() as int) =~= string_views(parts@));
    r
}

} // verus!
