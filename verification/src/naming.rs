//! Identifier normalization: schema names become type names and field names
//! in the casing of the target language.
use vstd::prelude::*;
use vstd::string::*;
use convert_case::{Case, Casing};

verus! {

/// The casings that identifiers are converted to.
#[derive(Clone, Copy, Debug, PartialEq, Eq)]
pub enum CaseStyle {
    /// Every word capitalized, no separators: `MyTypeName`.
    UpperCamel,
    /// As `UpperCamel`, with the first word in lower case: `myFieldName`.
    Camel,
    /// Lower-case words joined by underscores: `my_field_name`.
    Snake,
}

/// The text that `convert_case` makes of `text` in the given style: words are
/// split at case transitions, digits, spaces, hyphens and underscores, the
/// separators dropped, and the words re-cased and joined.
pub uninterp spec fn recased(text: Seq<char>, style: CaseStyle) -> Seq<char>;

/// Whether a character beyond ASCII is in one of Unicode's general categories
/// for numbers.
pub uninterp spec fn numeric_beyond_ascii(c: char) -> bool;

/// Whether `c` is numeric: a decimal digit, or a character beyond ASCII that
/// Unicode classes as a number.
pub open spec fn is_numeric(c: char) -> bool {
    if (c as u32) < 128 {
        '0' <= c <= '9'
    } else {
        numeric_beyond_ascii(c)
    }
}

/// Whether `text` begins with a numeric character.
pub open spec fn starts_numeric(text: Seq<char>) -> bool {
    text.len() > 0 && is_numeric(text[0])
}

/// `Casing::to_case` of `convert_case`, on the default word boundaries. The
/// conversion depends on the text and the style alone; `recased` names its
/// result.
#[verifier::external_body]
fn recase(text: &str, style: CaseStyle) -> (out: String)
    ensures
        out@ == recased(text@, style),
{
    let case = match style {
        CaseStyle::UpperCamel => Case::UpperCamel,
        CaseStyle::Camel => Case::Camel,
        CaseStyle::Snake => Case::Snake,
    };
    text.to_case(case)
}

/// `char::is_numeric` of std: true for the general categories Nd, Nl and No.
/// Within ASCII those hold the ten decimal digits and nothing else; beyond
/// it `numeric_beyond_ascii` names the answer.
#[verifier::external_body]
fn char_is_numeric(c: char) -> (numeric: bool)
    ensures
        (c as u32) < 128 ==> numeric == ('0' <= c <= '9'),
        (c as u32) >= 128 ==> numeric == numeric_beyond_ascii(c),
{
    c.is_numeric()
}

/// A cased name made safe as a type name: a leading numeric character is set
/// off by underscores, `1Test` becoming `_1_Test`.
pub open spec fn escaped_leading_digit(cased: Seq<char>) -> Seq<char> {
    if starts_numeric(cased) {
        seq!['_', cased[0], '_'] + cased.subrange(1, cased.len() as int)
    } else {
        cased
    }
}

/// A raw name made ready for field casing: a leading numeric character gets
/// an underscore in front.
pub open spec fn prefixed_leading_digit(raw: Seq<char>) -> Seq<char> {
    if starts_numeric(raw) {
        seq!['_'] + raw
    } else {
        raw
    }
}

/// The type name of `raw`: its upper camel casing, with a leading numeric
/// character escaped.
pub open spec fn type_name_of(raw: Seq<char>) -> Seq<char> {
    escaped_leading_digit(recased(raw, CaseStyle::UpperCamel))
}

/// The field name of `raw` in `style`: the casing of `raw`, which gets an
/// underscore in front first where it begins with a numeric character.
pub open spec fn field_name_of(raw: Seq<char>, style: CaseStyle) -> Seq<char> {
    recased(prefixed_leading_digit(raw), style)
}

/// Whether `text` begins with a numeric character.
pub fn begins_numeric(text: &str) -> (numeric: bool)
    ensures
        numeric == starts_numeric(text@),
{
    if text.is_empty() {
        false
    } else {
        char_is_numeric(text.get_char(0))
    }
}

/// Sets a leading numeric character of an already cased name off by
/// underscores; any other name comes back unchanged.
pub fn escape_leading_digit(cased: &str) -> (out: String)
    ensures
        out@ == escaped_leading_digit(cased@),
{
    if begins_numeric(cased) {
        let len: usize = cased.unicode_len();
        let mut out = String::from_str("_");
        out.append(cased.substring_char(0, 1));
        out.append("_");
        out.append(cased.substring_char(1, len));
        proof {
            reveal_strlit("_");
            assert(out@ =~= escaped_leading_digit(cased@));
        }
        out
    } else {
        String::from_str(cased)
    }
}

/// Puts an underscore in front of a name that begins with a numeric
/// character; any other name comes back unchanged.
pub fn prefix_leading_digit(raw: &str) -> (out: String)
    ensures
        out@ == prefixed_leading_digit(raw@),
{
    if begins_numeric(raw) {
        let mut out = String::from_str("_");
        out.append(raw);
        proof {
            reveal_strlit("_");
            assert(out@ =~= prefixed_leading_digit(raw@));
        }
        out
    } else {
        String::from_str(raw)
    }
}

/// Normalizes `raw` into a type or enum variant name, which never begins
/// with a numeric character.
pub fn to_type_name(raw: &str) -> (out: String)
    ensures
        out@ == type_name_of(raw@),
        !starts_numeric(out@),
{
    let cased = recase(raw, CaseStyle::UpperCamel);
    proof {
        lemma_escape_idempotent(cased@);
    }
    escape_leading_digit(cased.as_str())
}

/// Normalizes `raw` into a field name in `style`.
///
/// The underscore is added before the casing, and the casing treats it as a
/// word separator: the result can begin with a numeric character again. Type
/// names are escaped after the casing and never do.
pub fn to_field_name(raw: &str, style: CaseStyle) -> (out: String)
    ensures
        out@ == field_name_of(raw@, style),
{
    let prefixed = prefix_leading_digit(raw);
    recase(prefixed.as_str(), style)
}

/// Escaping leaves no leading numeric character, so escaping twice is
/// escaping once.
pub proof fn lemma_escape_idempotent(cased: Seq<char>)
    ensures
        !starts_numeric(escaped_leading_digit(cased)),
        escaped_leading_digit(escaped_leading_digit(cased)) == escaped_leading_digit(cased),
{
}

/// Prefixing leaves no leading numeric character, so prefixing twice is
/// prefixing once.
pub proof fn lemma_prefix_idempotent(raw: Seq<char>)
    ensures
        !starts_numeric(prefixed_leading_digit(raw)),
        prefixed_leading_digit(prefixed_leading_digit(raw)) == prefixed_leading_digit(raw),
{
}

/// An identifier that is already in upper camel case, and does not begin
/// with a numeric character, is its own type name.
pub proof fn lemma_type_name_fixed_point(id: Seq<char>)
    requires
        recased(id, CaseStyle::UpperCamel) == id,
        !starts_numeric(id),
    ensures
        type_name_of(id) == id,
{
}

/// An identifier that is already in the field casing, and does not begin
/// with a numeric character, is its own field name.
pub proof fn lemma_field_name_fixed_point(id: Seq<char>, style: CaseStyle)
    requires
        recased(id, style) == id,
        !starts_numeric(id),
    ensures
        field_name_of(id, style) == id,
{
}

/// Normalizing a type name again gives the same type name, wherever the
/// casing of the type name is the casing of the raw name it came from.
pub proof fn lemma_type_name_renormalized(raw: Seq<char>)
    requires
        recased(type_name_of(raw), CaseStyle::UpperCamel) == recased(raw, CaseStyle::UpperCamel),
    ensures
        type_name_of(type_name_of(raw)) == type_name_of(raw),
{
}

} // verus!
