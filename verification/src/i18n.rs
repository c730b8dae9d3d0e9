//! Languages of the answers. The language of a request is chosen once, from
//! its `Accept-Language` header, and the texts are put in by the app.
use vstd::prelude::*;

use crate::text::{
    ascii_lower_seq, ascii_lowercase, chars_of, split_chars, split_on, starts_with,
    starts_with_chars, trim, trimmed,
};

verus! {

#[derive(PartialEq, Eq, Structural, Debug)]
pub enum Lang {
    Ru,
    En,
}

impl Clone for Lang {
    fn clone(&self) -> (r: Self)
        ensures
            r == *self,
    {
        *self
    }
}

impl Copy for Lang {
}

/// The default language: the first of the supported ones.
pub open spec fn default_lang() -> Lang {
    Lang::Ru
}

/// The code of a language.
pub open spec fn code_of(lang: Lang) -> Seq<char> {
    match lang {
        Lang::Ru => "ru"@,
        Lang::En => "en"@,
    }
}

/// The language whose code `code` begins with, in order of priority.
pub open spec fn lang_of_code(code: Seq<char>) -> Option<Lang> {
    if starts_with(code, "ru"@) {
        Some(Lang::Ru)
    } else if starts_with(code, "en"@) {
        Some(Lang::En)
    } else {
        None
    }
}

/// The language code a part of the header names: the text before the first
/// `;`, trimmed, with ASCII letters made small.
pub open spec fn part_code(part: Seq<char>) -> Seq<char> {
    ascii_lower_seq(trim(split_on(part, ';')[0]))
}

/// The first supported language among the parts from `i` on, in the order
/// the client prefers them; the default one if there is none.
pub open spec fn accept_from(parts: Seq<Seq<char>>, i: int) -> Lang
    decreases parts.len() - i,
{
    if i < 0 || i >= parts.len() {
        default_lang()
    } else {
        match lang_of_code(part_code(parts[i])) {
            Some(l) => l,
            None => accept_from(parts, i + 1),
        }
    }
}

impl Lang {
    /// The code of the language: "ru" or "en".
    pub fn code(self) -> (r: &'static str)
        ensures
            r@ == code_of(self),
    {
        match self {
            Lang::Ru => "ru",
            Lang::En => "en",
        }
    }

    /// The language of an `Accept-Language` header: the first supported code
    /// in the order of the client's preference.
    pub fn from_accept_language(header: &str) -> (r: Self)
        ensures
            r == accept_from(split_on(header@, ','), 0),
    {
        let text = chars_of(header);
        let parts = split_chars(text.as_slice(), ',');
        let ghost spec_parts = split_on(header@, ',');
        let ru = chars_of("ru");
        let en = chars_of("en");
        let mut i: usize = 0;
        while i < parts.len()
            invariant
                i <= parts@.len(),
                spec_parts == split_on(header@, ','),
                parts@.len() == spec_parts.len(),
                forall|k: int| 0 <= k < parts@.len() ==> #[trigger] parts@[k]@ == spec_parts[k],
                ru@ == "ru"@,
                en@ == "en"@,
                accept_from(spec_parts, 0) == accept_from(spec_parts, i as int),
            decreases parts@.len() - i,
        {
            let pieces = split_chars(parts[i].as_slice(), ';');
            proof {
                crate::text::lemma_split_on_nonempty(parts@[i as int]@, ';');
            }
            let first = trimmed(pieces[0].as_slice());
            let code = ascii_lowercase(first.as_slice());
            assert(code@ == part_code(spec_parts[i as int]));
            if starts_with_chars(code.as_slice(), ru.as_slice()) {
                assert(lang_of_code(part_code(spec_parts[i as int])) == Some(Lang::Ru));
                assert(accept_from(spec_parts, i as int) == Lang::Ru);
                return Lang::Ru;
            }
            if starts_with_chars(code.as_slice(), en.as_slice()) {
                assert(lang_of_code(part_code(spec_parts[i as int])) == Some(Lang::En));
                assert(accept_from(spec_parts, i as int) == Lang::En);
                return Lang::En;
            }
            i += 1;
        }
        Lang::Ru
    }
}

/// The language of the current request: the one chosen for it, or the
/// default one outside a request.
pub fn current_lang(scoped: Option<Lang>) -> (r: Lang)
    ensures
        r == match scoped {
            Some(l) => l,
            None => default_lang(),
        },
{
    match scoped {
        Some(l) => l,
        None => Lang::Ru,
    }
}

/// Whether `code` is the code of a supported language.
pub fn is_known_locale(code: &str) -> (r: bool)
    ensures
        r == (code@ == code_of(Lang::Ru) || code@ == code_of(Lang::En)),
{
    crate::text::str_eq(code, "ru") || crate::text::str_eq(code, "en")
}

} // verus!
