//! Reading an estimate from a photograph: the neural network copies the
//! sheet out, and its answer is taken apart strictly here. A wrong number is
//! worse than a missing one: a line whose quantity × price does not meet its
//! total loses its numbers and goes to the unrecognised lines.
use vstd::prelude::*;

use super::parse::line::join;
use super::parse::{models, LineModel, ParsedLine};
use crate::llm::LlmError;
use crate::text::{
    chars_of, concat, find_char, first_index_of, last_index_of, rfind_char, slice_chars, str_eq,
    string_of, trim, trimmed,
};

verus! {

/// A photograph has one "sheet"; its lines are all labelled the same.
pub open spec fn photo_sheet() -> Seq<char> {
    "Фото"@
}

/// Why a photograph gave no estimate.
#[derive(Debug)]
pub enum PhotoError {
    /// the model answered, but no estimate can be made of the answer: the
    /// picture is to blame
    BadAnswer,
    /// the model was not reached, is down, or the token cap is spent
    Provider(LlmError),
}

/// The type of a picture for the provider, by the extension we gave it.
pub fn mime_of(ext: &str) -> (r: &'static str)
    ensures
        ext@ == "png"@ ==> r@ == "image/png"@,
        ext@ == "webp"@ ==> r@ == "image/webp"@,
        ext@ != "png"@ && ext@ != "webp"@ ==> r@ == "image/jpeg"@,
{
    proof {
        reveal_strlit("png");
        reveal_strlit("webp");
        assert("png"@.len() == 3);
        assert("webp"@.len() == 4);
    }
    if str_eq(ext, "png") {
        "image/png"
    } else if str_eq(ext, "webp") {
        "image/webp"
    } else {
        "image/jpeg"
    }
}

/// The part of a model's answer from its first `{` to its last `}`: models
/// like to wrap the JSON in a fence and a polite preface.
pub open spec fn json_part(text: Seq<char>) -> Option<Seq<char>> {
    match (first_index_of(text, '{'), last_index_of(text, '}')) {
        (Some(start), Some(end)) => if start <= end + 1 {
            Some(text.subrange(start, end + 1))
        } else {
            None
        },
        _ => None,
    }
}

/// The JSON part of the answer, if there is one.
pub fn json_span(text: &str) -> (r: Option<String>)
    ensures
        r matches Some(s) ==> json_part(text@) == Some(s@),
        r is None ==> json_part(text@) is None,
{
    let c = chars_of(text);
    let start = match find_char(c.as_slice(), '{') {
        Some(i) => i,
        None => return None,
    };
    let end = match rfind_char(c.as_slice(), '}') {
        Some(i) => i,
        None => return None,
    };
    assert(end < c.len());
    if start > end + 1 {
        return None;
    }
    let part = slice_chars(c.as_slice(), start, end + 1);
    Some(string_of(part.as_slice()))
}

/// A line of the model's answer. The numbers are already those that can be
/// used (zero and negative ones are empty cells the model filled in); the
/// app also tells whether quantity × price meets the total, and gives the
/// texts of the numbers that are present, in the order quantity, price, total.
pub struct AnswerLine<N> {
    pub name: String,
    pub unit: Option<String>,
    pub quantity: Option<N>,
    pub price: Option<N>,
    pub total: Option<N>,
    pub numbers_agree: bool,
    pub number_texts: Vec<String>,
}

pub open spec fn piece_views(v: Seq<Vec<char>>) -> Seq<Seq<char>> {
    v.map_values(|p: Vec<char>| p@)
}

pub open spec fn texts(v: Seq<String>) -> Seq<Seq<char>> {
    v.map_values(|s: String| s@)
}

pub open spec fn opt_piece(o: Option<Seq<char>>) -> Seq<Seq<char>> {
    match o {
        Some(s) => seq![s],
        None => Seq::<Seq<char>>::empty(),
    }
}

/// The unit of an answer line: trimmed, and none when empty.
pub open spec fn answer_unit(unit: Option<String>) -> Option<Seq<char>> {
    match unit {
        Some(u) => if trim(u@).len() > 0 {
            Some(trim(u@))
        } else {
            None
        },
        None => None,
    }
}

/// The line an answer line gives: none without a name; the line as the
/// sheet shows it, with its numbers when they agree, and as raw text only
/// when they do not.
pub open spec fn answer_line<N>(a: AnswerLine<N>) -> Option<LineModel<N>> {
    let title = trim(a.name@);
    if title.len() == 0 {
        None
    } else {
        let unit = answer_unit(a.unit);
        let raw = join(
            seq![title] + opt_piece(unit) + texts(a.number_texts@),
            " | "@,
        );
        if a.numbers_agree {
            Some(
                LineModel {
                    sheet: photo_sheet(),
                    raw_text: raw,
                    title: Some(title),
                    unit,
                    quantity: a.quantity,
                    price: a.price,
                    total: a.total,
                },
            )
        } else {
            Some(
                LineModel {
                    sheet: photo_sheet(),
                    raw_text: raw,
                    title: None,
                    unit: None,
                    quantity: None,
                    price: None,
                    total: None,
                },
            )
        }
    }
}

/// The line an unreadable piece gives: its trimmed text, when not empty.
pub open spec fn unreadable_line<N>(text: Seq<char>) -> Option<LineModel<N>> {
    if trim(text).len() == 0 {
        None
    } else {
        Some(
            LineModel {
                sheet: photo_sheet(),
                raw_text: trim(text),
                title: None,
                unit: None,
                quantity: None,
                price: None,
                total: None,
            },
        )
    }
}

pub open spec fn opt_model<N>(o: Option<LineModel<N>>) -> Seq<LineModel<N>> {
    match o {
        Some(l) => seq![l],
        None => Seq::<LineModel<N>>::empty(),
    }
}

/// The lines of the first `end` answer lines.
pub open spec fn answer_lines<N>(lines: Seq<AnswerLine<N>>, end: int) -> Seq<LineModel<N>>
    decreases end,
{
    if end <= 0 {
        Seq::<LineModel<N>>::empty()
    } else {
        answer_lines(lines, end - 1) + opt_model(answer_line(lines[end - 1]))
    }
}

/// The lines of the first `end` unreadable pieces.
pub open spec fn unreadable_lines<N>(pieces: Seq<String>, end: int) -> Seq<LineModel<N>>
    decreases end,
{
    if end <= 0 {
        Seq::<LineModel<N>>::empty()
    } else {
        unreadable_lines(pieces, end - 1) + opt_model(unreadable_line(pieces[end - 1]@))
    }
}

/// The lines of a whole answer: the answer lines, then the unreadable pieces.
/// Nothing is thrown away: numbers that disagree hide the numbers, not the
/// line.
pub open spec fn lines_of_answer<N>(lines: Seq<AnswerLine<N>>, unreadable: Seq<String>) -> Seq<
    LineModel<N>,
> {
    answer_lines(lines, lines.len() as int) + unreadable_lines(unreadable, unreadable.len() as int)
}

fn join_pieces(pieces: &Vec<Vec<char>>) -> (r: Vec<char>)
    ensures
        r@ == join(piece_views(pieces@), " | "@),
{
    let sep = chars_of(" | ");
    let ghost views = piece_views(pieces@);
    let mut out: Vec<char> = Vec::new();
    let mut i: usize = 0;
    while i < pieces.len()
        invariant
            i <= pieces@.len(),
            sep@ == " | "@,
            views == piece_views(pieces@),
            out@ == join(views.take(i as int), " | "@),
        decreases pieces@.len() - i,
    {
        if i > 0 {
            out = concat(out.as_slice(), sep.as_slice());
        }
        out = concat(out.as_slice(), pieces[i].as_slice());
        assert(views.take(i + 1).drop_last() =~= views.take(i as int));
        i += 1;
    }
    assert(views.take(views.len() as int) =~= views);
    out
}

fn one_line<N: Copy>(a: &AnswerLine<N>) -> (r: Option<ParsedLine<N>>)
    ensures
        r matches Some(l) ==> answer_line(*a) == Some(l.model()),
        r is None ==> answer_line(*a) is None,
{
    let name = chars_of(a.name.as_str());
    let title = trimmed(name.as_slice());
    if title.len() == 0 {
        return None;
    }
    let unit: Option<Vec<char>> = match &a.unit {
        Some(u) => {
            let uc = chars_of(u.as_str());
            let ut = trimmed(uc.as_slice());
            if ut.len() > 0 {
                Some(ut)
            } else {
                None
            }
        },
        None => None,
    };
    let mut pieces: Vec<Vec<char>> = Vec::new();
    pieces.push(title.clone());
    match &unit {
        Some(u) => pieces.push(u.clone()),
        None => {},
    }
    let ghost head = piece_views(pieces@);
    assert(head =~= seq![title@] + opt_piece(
        match unit {
            Some(u) => Some(u@),
            None => None,
        },
    ));
    let mut k: usize = 0;
    while k < a.number_texts.len()
        invariant
            k <= a.number_texts@.len(),
            piece_views(pieces@) == head + texts(a.number_texts@.take(k as int)),
        decreases a.number_texts@.len() - k,
    {
        let ghost old_pieces = pieces@;
        let piece = chars_of(a.number_texts[k].as_str());
        pieces.push(piece);
        assert(piece_views(pieces@) =~= piece_views(old_pieces).push(piece@));
        assert(texts(a.number_texts@.take(k + 1)) =~= texts(a.number_texts@.take(k as int)).push(
            a.number_texts@[k as int]@,
        ));
        assert(piece_views(pieces@) =~= head + texts(a.number_texts@.take(k + 1)));
        k += 1;
    }
    assert(a.number_texts@.take(a.number_texts@.len() as int) =~= a.number_texts@);
    let raw = join_pieces(&pieces);
    let unit_text: Option<String> = match &unit {
        Some(u) => Some(string_of(u.as_slice())),
        None => None,
    };
    if a.numbers_agree {
        Some(
            ParsedLine {
                sheet: "Фото".to_owned(),
                raw_text: string_of(raw.as_slice()),
                title: Some(string_of(title.as_slice())),
                unit: unit_text,
                quantity: a.quantity,
                price: a.price,
                total: a.total,
            },
        )
    } else {
        Some(
            ParsedLine {
                sheet: "Фото".to_owned(),
                raw_text: string_of(raw.as_slice()),
                title: None,
                unit: None,
                quantity: None,
                price: None,
                total: None,
            },
        )
    }
}

/// The lines of the model's answer.
pub fn to_lines<N: Copy>(lines: &Vec<AnswerLine<N>>, unreadable: &Vec<String>) -> (r: Vec<
    ParsedLine<N>,
>)
    ensures
        models(r@) == lines_of_answer(lines@, unreadable@),
{
    let mut out: Vec<ParsedLine<N>> = Vec::new();
    let mut i: usize = 0;
    while i < lines.len()
        invariant
            i <= lines@.len(),
            models(out@) == answer_lines(lines@, i as int),
        decreases lines@.len() - i,
    {
        let ghost before = out@;
        match one_line(&lines[i]) {
            Some(l) => {
                out.push(l);
                assert(models(out@) =~= models(before) + seq![l.model()]);
            },
            None => {
                assert(models(out@) =~= answer_lines(lines@, i + 1));
            },
        }
        i += 1;
    }
    let ghost done = models(out@);
    let mut j: usize = 0;
    while j < unreadable.len()
        invariant
            j <= unreadable@.len(),
            done == answer_lines(lines@, lines@.len() as int),
            models(out@) == done + unreadable_lines::<N>(
                unreadable@,
                j as int,
            ),
        decreases unreadable@.len() - j,
    {
        let c = chars_of(unreadable[j].as_str());
        let t = trimmed(c.as_slice());
        let ghost before = out@;
        if t.len() > 0 {
            let l = ParsedLine {
                sheet: "Фото".to_owned(),
                raw_text: string_of(t.as_slice()),
                title: None,
                unit: None,
                quantity: None,
                price: None,
                total: None,
            };
            out.push(l);
            assert(models(out@) =~= models(before) + seq![l.model()]);
        }
        assert(models(out@) =~= done + unreadable_lines::<N>(
            unreadable@,
            j + 1,
        ));
        j += 1;
    }
    out
}

/// An answer without a single line is a bad answer.
pub fn lines_or_bad_answer<N>(lines: Vec<ParsedLine<N>>) -> (r: Result<Vec<ParsedLine<N>>, PhotoError>)
    ensures
        lines@.len() == 0 ==> (r matches Err(e) && e is BadAnswer),
        lines@.len() > 0 ==> r == Ok::<Vec<ParsedLine<N>>, PhotoError>(lines),
{
    if lines.len() == 0 {
        return Err(PhotoError::BadAnswer);
    }
    Ok(lines)
}

} // verus!
