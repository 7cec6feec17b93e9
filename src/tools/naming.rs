//! Names and argument types derived from a tool function's signature.

use vstd::prelude::*;

verus! {

/// What Rust's `char::to_uppercase` yields for `c`.
pub uninterp spec fn upper_of(c: char) -> Seq<char>;

/// The ASCII upper-case form of `c`: `a` to `z` become `A` to `Z`, all else is kept.
pub open spec fn ascii_upper(c: char) -> char {
    if 'a' <= c && c <= 'z' {
        seq![
            'A', 'B', 'C', 'D', 'E', 'F', 'G', 'H', 'I', 'J', 'K', 'L', 'M',
            'N', 'O', 'P', 'Q', 'R', 'S', 'T', 'U', 'V', 'W', 'X', 'Y', 'Z',
        ][(c as u32) - ('a' as u32)]
    } else {
        c
    }
}

/// Relies on char::to_uppercase: the upper-case mapping of `c`, a function of `c` alone,
/// which on ASCII is the one character `to_ascii_uppercase` gives.
#[verifier::external_body]
fn uppercase_char(c: char) -> (r: String)
    ensures
        r@ == upper_of(c),
        (c as u32) < 128 ==> r@ == seq![ascii_upper(c)],
{
    c.to_uppercase().collect::<String>()
}

/// PascalCase of `s` from `at_start` on, where `ups[i]` is the upper-case form of
/// `s[i]`: underscores are dropped and the first character of each underscore-separated
/// word is replaced by its upper-case form.
pub open spec fn pascal_from(s: Seq<char>, ups: Seq<Seq<char>>, at_start: bool) -> Seq<char>
    decreases s.len(),
{
    if s.len() == 0 {
        seq![]
    } else if s[0] == '_' {
        pascal_from(s.skip(1), ups.skip(1), true)
    } else if at_start {
        ups[0] + pascal_from(s.skip(1), ups.skip(1), false)
    } else {
        seq![s[0]] + pascal_from(s.skip(1), ups.skip(1), false)
    }
}

/// The upper-case form of each character of `s`.
pub open spec fn uppers_of(s: Seq<char>) -> Seq<Seq<char>> {
    Seq::new(s.len(), |i: int| upper_of(s[i]))
}

pub open spec fn pascal_case_of(s: Seq<char>) -> Seq<char> {
    pascal_from(s, uppers_of(s), true)
}

pub open spec fn strings_view(v: Seq<String>) -> Seq<Seq<char>> {
    v.map_values(|x: String| x@)
}

/// Joins the underscore-separated words of `s`, each starting with the upper-case form
/// that `uppers` gives for its first character (`uppers[i]` stands for `s`'s i-th).
pub fn pascal_join(s: &str, uppers: &Vec<String>) -> (r: String)
    requires
        uppers@.len() == s@.len(),
    ensures
        r@ == pascal_from(s@, strings_view(uppers@), true),
{
    let n = s.unicode_len();
    let ghost ups = strings_view(uppers@);
    let mut out = String::new();
    let mut at_start = true;
    let mut i: usize = 0;
    assert(s@.skip(0) =~= s@);
    assert(ups.skip(0) =~= ups);
    assert(out@ + pascal_from(s@, ups, true) =~= pascal_from(s@, ups, true));
    while i < n
        invariant
            n == s@.len(),
            uppers@.len() == n,
            ups == strings_view(uppers@),
            i <= n,
            out@ + pascal_from(s@.skip(i as int), ups.skip(i as int), at_start) == pascal_from(s@, ups, true),
        decreases n - i,
    {
        let c = s.get_char(i);
        let ghost rest = s@.skip(i as int);
        assert(rest.skip(1) =~= s@.skip(i + 1));
        assert(ups.skip(i as int).skip(1) =~= ups.skip(i + 1));
        assert(ups.skip(i as int)[0] == uppers@[i as int]@);
        assert(rest[0] == c);
        if c == '_' {
            at_start = true;
        } else if at_start {
            out.append(uppers[i].as_str());
            assert(out@ + pascal_from(s@.skip(i + 1), ups.skip(i + 1), false) =~= pascal_from(s@, ups, true));
            at_start = false;
        } else {
            out.append(s.substring_char(i, i + 1));
            assert(s@.subrange(i as int, i + 1) =~= seq![c]);
            assert(out@ + pascal_from(s@.skip(i + 1), ups.skip(i + 1), false) =~= pascal_from(s@, ups, true));
        }
        i = i + 1;
    }
    assert(s@.skip(n as int) =~= Seq::<char>::empty());
    assert(out@ =~= pascal_from(s@, ups, true));
    out
}

/// `get_weather` becomes `GetWeather`.
pub fn pascal_case(s: &str) -> (r: String)
    ensures
        r@ == pascal_case_of(s@),
{
    let n = s.unicode_len();
    let mut uppers: Vec<String> = Vec::new();
    let mut i: usize = 0;
    while i < n
        invariant
            n == s@.len(),
            i <= n,
            uppers@.len() == i,
            forall|j: int| 0 <= j < i ==> (#[trigger] uppers@[j])@ == upper_of(s@[j]),
        decreases n - i,
    {
        let u = uppercase_char(s.get_char(i));
        uppers.push(u);
        i = i + 1;
    }
    assert(strings_view(uppers@) =~= uppers_of(s@));
    pascal_join(s, &uppers)
}

pub open spec fn is_integer_type(t: Seq<char>) -> bool {
    ||| t == "i8"@
    ||| t == "i16"@
    ||| t == "i32"@
    ||| t == "i64"@
    ||| t == "u8"@
    ||| t == "u16"@
    ||| t == "u32"@
    ||| t == "u64"@
    ||| t == "usize"@
    ||| t == "isize"@
}

/// The JSON type of an argument, from the name of its type's last path segment
/// (`None` where the type is not a path).
pub open spec fn json_type_of(ident: Option<Seq<char>>) -> Seq<char> {
    match ident {
        Some(t) => if t == "String"@ {
            "string"@
        } else if t == "bool"@ {
            "boolean"@
        } else if is_integer_type(t) {
            "integer"@
        } else if t == "f32"@ || t == "f64"@ {
            "number"@
        } else if t == "Vec"@ {
            "array"@
        } else {
            "object"@
        },
        None => "object"@,
    }
}

fn is_named(t: &String, name: &str) -> (r: bool)
    ensures
        r == (t@ == name@),
{
    *t == String::from_str(name)
}

/// The JSON type shown to the model for an argument whose type's last path segment is
/// `ident`; `None` stands for a type that is not a path.
pub fn infer_json_type(ident: Option<&str>) -> (r: &'static str)
    ensures
        r@ == json_type_of(
            match ident {
                Some(t) => Some(t@),
                None => None,
            },
        ),
{
    let t = match ident {
        Some(t) => String::from_str(t),
        None => {
            return "object";
        },
    };
    if is_named(&t, "String") {
        "string"
    } else if is_named(&t, "bool") {
        "boolean"
    } else if is_named(&t, "i8") || is_named(&t, "i16") || is_named(&t, "i32") || is_named(&t, "i64")
        || is_named(&t, "u8") || is_named(&t, "u16") || is_named(&t, "u32") || is_named(&t, "u64")
        || is_named(&t, "usize") || is_named(&t, "isize") {
        "integer"
    } else if is_named(&t, "f32") || is_named(&t, "f64") {
        "number"
    } else if is_named(&t, "Vec") {
        "array"
    } else {
        "object"
    }
}

} // verus!
