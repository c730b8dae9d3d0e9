//! Properties of the service that span more than one function or hold of
//! every input, stated over the same models the functions' contracts use.
use vstd::prelude::*;

use crate::auth::canonical_email;
use crate::auth::jwt::{
    access_purpose, checked_claims, jwt_hs256_claims, pending_purpose, ACCESS_TTL_SECS,
    LEEWAY_SECS, PENDING_2FA_TTL_SECS,
};
use crate::estimates::parse::header::{
    cost_at, distinct_count, first_match, header_at, header_columns, header_found,
    price_words, total_at, word_at, Columns, MIN_MATCHED_COLUMNS, SEARCH_ROWS,
};
use crate::estimates::parse::{
    book_lines, lines_of_sheet, opt_line, parse_result, row_line, rows_of, sheet_lines,
    take_at_most, Cell, LineModel, ParseError, Sheet, MAX_LINES,
};
use crate::estimates::parse::line::{join, line_of, raw_text_of};
use crate::estimates::photo::{
    answer_line, answer_lines, lines_of_answer, unreadable_line, unreadable_lines, AnswerLine,
};
use crate::estimates::{allowed_exts, cleaned_name, extension_in, MAX_FILE_NAME_LEN};
use crate::auth::sessions::{browsers, first_named};
use crate::guards::{client_address, origin_list, origin_passes, without_trailing_slashes};
use crate::i18n::{accept_from, code_of, Lang};
use crate::text::{split_on, take_chars, trim};
use crate::users::{role_name, role_of, Role};

verus! {

/// A role written to the database under its name is read back as the same
/// role.
pub proof fn role_name_reads_back(role: Role)
    ensures
        role_of(role_name(role)) == role,
{
    reveal_strlit("user");
    reveal_strlit("admin");
    assert("user"@.len() != "admin"@.len());
}

/// A client whose `Accept-Language` is the code of a supported language is
/// answered in that language.
pub proof fn language_code_reads_back(lang: Lang)
    ensures
        accept_from(split_on(code_of(lang), ','), 0) == lang,
{
    let code = code_of(lang);
    reveal_strlit("ru");
    reveal_strlit("en");
    assert(code.len() == 2);
    assert(code[0] != ',' && code[1] != ',');
    assert(!code.contains(',')) by {
        if code.contains(',') {
            let k = choose|k: int| 0 <= k < code.len() && code[k] == ',';
            assert(k == 0 || k == 1);
        }
    }
    crate::text::lemma_split_on_absent(code, ',');
    assert(trim(code) == code) by {
        crate::text::lemma_trim_plain(code);
    }
    assert(!code.contains(';')) by {
        if code.contains(';') {
            let k = choose|k: int| 0 <= k < code.len() && code[k] == ';';
            assert(k == 0 || k == 1);
        }
    }
    crate::text::lemma_split_on_absent(code, ';');
    assert(crate::text::ascii_lower_seq(code) =~= code);
    assert(crate::text::starts_with(code, code)) by {
        assert(code.subrange(0, code.len() as int) =~= code);
    }
}

/// An access token and the pending token of the second factor carry
/// different purposes, so neither is accepted where the other is asked for.
pub proof fn token_purposes_differ()
    ensures
        access_purpose() != pending_purpose(),
{
    reveal_strlit("access");
    reveal_strlit("2fa");
    assert("access"@.len() != "2fa"@.len());
}

/// Without a trusted proxy in front, `x-forwarded-for` does not change the
/// address a request is counted under: a client cannot slip out of its
/// limit by sending the header.
pub proof fn forwarded_header_needs_trusted_proxy(
    forwarded: Option<Seq<char>>,
    peer: Option<Seq<char>>,
)
    ensures
        client_address(false, forwarded, peer) == client_address(false, None, peer),
{
}

/// The extension a stored file gets is always one of the allowed list, so
/// nothing of the user's file name reaches the path on disk.
pub proof fn extension_is_from_the_allowed_list(name: Seq<char>)
    ensures
        extension_in(name) matches Some(e) ==> exists|k: int|
            0 <= k < allowed_exts().len() && e == #[trigger] allowed_exts()[k]@,
{
}

/// A cleaned file name is never longer than `MAX_FILE_NAME_LEN` characters,
/// and is a beginning of the trimmed name.
pub proof fn cleaned_name_is_bounded(name: Seq<char>)
    ensures
        cleaned_name(name).len() <= MAX_FILE_NAME_LEN,
        trim(name).take(cleaned_name(name).len() as int) == cleaned_name(name),
{
    let t = trim(name);
    if t.len() <= MAX_FILE_NAME_LEN {
        assert(t.take(t.len() as int) =~= t);
    } else {
        assert(take_chars(t, MAX_FILE_NAME_LEN as int) == t.take(MAX_FILE_NAME_LEN as int));
        assert(t.take(MAX_FILE_NAME_LEN as int).take(MAX_FILE_NAME_LEN as int) =~= t.take(
            MAX_FILE_NAME_LEN as int,
        ));
    }
}

/// The canonical form of an address is its own canonical form: the key an
/// account is registered under is the key the same address is looked up by
/// at login and recovery, however it is typed again.
pub proof fn canonical_email_is_stable(email: Seq<char>)
    ensures
        canonical_email(canonical_email(email)) == canonical_email(email),
{
    crate::text::lemma_trim_shape(email);
    crate::text::lemma_ascii_lower_seq_trimmed(trim(email));
}

/// The shape every line of an estimate has: it is never empty, and it is
/// either a recognised work (a title and at least one number) or raw text
/// only, with no title or unit guessed for it.
pub open spec fn line_shape<N>(l: LineModel<N>) -> bool {
    &&& l.raw_text.len() > 0
    &&& (l.title is Some ==> l.recognized())
    &&& (l.unit is Some ==> l.title is Some)
}

proof fn row_line_has_shape<N>(
    name: Seq<char>,
    rows: Seq<Seq<Cell<N>>>,
    header: Option<Columns>,
    index: int,
)
    ensures
        row_line(name, rows, header, index) matches Some(l) ==> line_shape(l),
{
}

proof fn sheet_lines_have_shape<N>(
    name: Seq<char>,
    rows: Seq<Seq<Cell<N>>>,
    header: Option<Columns>,
    end: int,
)
    ensures
        forall|i: int|
            0 <= i < sheet_lines(name, rows, header, end).len() ==> line_shape(
                #[trigger] sheet_lines(name, rows, header, end)[i],
            ),
    decreases end,
{
    if end > 0 {
        sheet_lines_have_shape(name, rows, header, end - 1);
        row_line_has_shape(name, rows, header, end - 1);
        let prev = sheet_lines(name, rows, header, end - 1);
        let extra = crate::estimates::parse::opt_line(row_line(name, rows, header, end - 1));
        let whole = sheet_lines(name, rows, header, end);
        assert(whole == prev + extra);
        assert forall|i: int| 0 <= i < whole.len() implies line_shape(#[trigger] whole[i]) by {
            if i < prev.len() {
                assert(whole[i] == prev[i]);
            } else {
                assert(whole[i] == extra[i - prev.len()]);
            }
        }
    }
}

proof fn book_lines_have_shape<N>(sheets: Seq<Sheet<N>>, end: int)
    ensures
        forall|i: int|
            0 <= i < book_lines(sheets, end).len() ==> line_shape(
                #[trigger] book_lines(sheets, end)[i],
            ),
    decreases end,
{
    if end > 0 {
        book_lines_have_shape(sheets, end - 1);
        let sheet = sheets[end - 1];
        let rows = crate::estimates::parse::rows_of(sheet.rows@);
        sheet_lines_have_shape(
            sheet.name@,
            rows,
            crate::estimates::parse::header::header_at(rows),
            rows.len() as int,
        );
        let prev = book_lines(sheets, end - 1);
        let extra = crate::estimates::parse::lines_of_sheet(sheet);
        let whole = book_lines(sheets, end);
        assert(whole == prev + extra);
        assert forall|i: int| 0 <= i < whole.len() implies line_shape(#[trigger] whole[i]) by {
            if i < prev.len() {
                assert(whole[i] == prev[i]);
            } else {
                assert(whole[i] == extra[i - prev.len()]);
            }
        }
    }
}

/// Parsing a book never gives an empty line nor a half-guessed one, and
/// gives no more than `MAX_LINES` lines: every line is a recognised work or
/// the raw text of a row a person should look at.
pub proof fn parsed_lines_have_shape<N>(sheets: Seq<Sheet<N>>)
    ensures
        parse_result(sheets) matches Ok(lines) ==> lines.len() <= MAX_LINES && forall|i: int|
            0 <= i < lines.len() ==> line_shape(#[trigger] lines[i]),
{
    let all = book_lines(sheets, sheets.len() as int);
    book_lines_have_shape(sheets, sheets.len() as int);
    let kept = take_at_most(all, MAX_LINES as int);
    assert forall|i: int| 0 <= i < kept.len() implies line_shape(#[trigger] kept[i]) by {
        assert(kept[i] == all[i]);
    }
}

proof fn join_begins_with_first(pieces: Seq<Seq<char>>, sep: Seq<char>)
    requires
        pieces.len() >= 1,
    ensures
        join(pieces, sep).len() >= pieces[0].len(),
        join(pieces, sep).take(pieces[0].len() as int) == pieces[0],
    decreases pieces.len(),
{
    if pieces.len() == 1 {
        assert(pieces[0].take(pieces[0].len() as int) =~= pieces[0]);
    } else {
        join_begins_with_first(pieces.drop_last(), sep);
        let head = join(pieces.drop_last(), sep);
        assert(pieces.drop_last()[0] == pieces[0]);
        assert((head + sep + pieces.last()).take(pieces[0].len() as int) =~= head.take(
            pieces[0].len() as int,
        ));
    }
}

/// A line of a photographed estimate is never dropped for its numbers: a
/// named line always gives a line, whose text begins with the name; when
/// quantity × price does not meet the total, it gives neither a title nor
/// any number, so nothing it says is shown as a fact.
pub proof fn photo_line_keeps_its_text<N>(a: AnswerLine<N>)
    ensures
        trim(a.name@).len() > 0 <==> answer_line(a) is Some,
        answer_line(a) matches Some(l) ==> l.raw_text.len() >= trim(a.name@).len()
            && l.raw_text.take(trim(a.name@).len() as int) == trim(a.name@),
        !a.numbers_agree ==> (answer_line(a) matches Some(l) ==> l.title is None
            && l.quantity is None && l.price is None && l.total is None),
{
    let title = trim(a.name@);
    if title.len() > 0 {
        let pieces = seq![title] + crate::estimates::photo::opt_piece(
            crate::estimates::photo::answer_unit(a.unit),
        ) + crate::estimates::photo::texts(a.number_texts@);
        assert(pieces[0] == title);
        join_begins_with_first(pieces, " | "@);
    }
}

proof fn answer_lines_show_agreeing_numbers<N>(lines: Seq<AnswerLine<N>>, end: int)
    requires
        end <= lines.len(),
    ensures
        forall|i: int|
            0 <= i < answer_lines(lines, end).len() && (answer_lines(lines, end)[i].quantity is Some
                || answer_lines(lines, end)[i].price is Some
                || answer_lines(lines, end)[i].total is Some) ==> exists|k: int|
                0 <= k < lines.len() && #[trigger] lines[k].numbers_agree && lines[k].quantity
                    == answer_lines(lines, end)[i].quantity && lines[k].price == answer_lines(
                    lines,
                    end,
                )[i].price && lines[k].total == answer_lines(lines, end)[i].total,
    decreases end,
{
    if end > 0 {
        answer_lines_show_agreeing_numbers(lines, end - 1);
        let prev = answer_lines(lines, end - 1);
        let extra = crate::estimates::photo::opt_model(answer_line(lines[end - 1]));
        let whole = answer_lines(lines, end);
        assert(whole == prev + extra);
        assert forall|i: int|
            0 <= i < whole.len() && (whole[i].quantity is Some || whole[i].price is Some
                || whole[i].total is Some) implies exists|k: int|
            0 <= k < lines.len() && #[trigger] lines[k].numbers_agree && lines[k].quantity
                == whole[i].quantity && lines[k].price == whole[i].price && lines[k].total
                == whole[i].total by {
            if i < prev.len() {
                assert(whole[i] == prev[i]);
            } else {
                assert(whole[i] == extra[i - prev.len()]);
                assert(lines[end - 1].numbers_agree);
            }
        }
    }
}

proof fn unreadable_lines_have_no_numbers<N>(pieces: Seq<String>, end: int)
    ensures
        forall|i: int|
            0 <= i < unreadable_lines::<N>(pieces, end).len() ==> (#[trigger] unreadable_lines::<N>(
                pieces,
                end,
            )[i]).quantity is None && unreadable_lines::<N>(pieces, end)[i].price is None
                && unreadable_lines::<N>(pieces, end)[i].total is None,
    decreases end,
{
    if end > 0 {
        unreadable_lines_have_no_numbers::<N>(pieces, end - 1);
        let prev = unreadable_lines::<N>(pieces, end - 1);
        let extra = crate::estimates::photo::opt_model(unreadable_line::<N>(pieces[end - 1]@));
        let whole = unreadable_lines::<N>(pieces, end);
        assert(whole == prev + extra);
        assert forall|i: int| 0 <= i < whole.len() implies (#[trigger] whole[i]).quantity is None
            && whole[i].price is None && whole[i].total is None by {
            if i < prev.len() {
                assert(whole[i] == prev[i]);
            } else {
                assert(whole[i] == extra[i - prev.len()]);
            }
        }
    }
}

/// Every number a photographed estimate shows comes, together with the two
/// others of its line, from a line of the model's answer whose quantity ×
/// price meets its total.
pub proof fn photo_numbers_come_from_agreeing_lines<N>(
    lines: Seq<AnswerLine<N>>,
    unreadable: Seq<String>,
)
    ensures
        forall|i: int|
            0 <= i < lines_of_answer(lines, unreadable).len() && (lines_of_answer(
                lines,
                unreadable,
            )[i].quantity is Some || lines_of_answer(lines, unreadable)[i].price is Some
                || lines_of_answer(lines, unreadable)[i].total is Some) ==> exists|k: int|
                0 <= k < lines.len() && #[trigger] lines[k].numbers_agree && lines[k].quantity
                    == lines_of_answer(lines, unreadable)[i].quantity && lines[k].price
                    == lines_of_answer(lines, unreadable)[i].price && lines[k].total
                    == lines_of_answer(lines, unreadable)[i].total,
{
    let a = answer_lines(lines, lines.len() as int);
    let u = unreadable_lines::<N>(unreadable, unreadable.len() as int);
    let all = lines_of_answer(lines, unreadable);
    answer_lines_show_agreeing_numbers(lines, lines.len() as int);
    unreadable_lines_have_no_numbers::<N>(unreadable, unreadable.len() as int);
    assert(all == a + u);
    assert forall|i: int|
        0 <= i < all.len() && (all[i].quantity is Some || all[i].price is Some
            || all[i].total is Some) implies exists|k: int|
        0 <= k < lines.len() && #[trigger] lines[k].numbers_agree && lines[k].quantity
            == all[i].quantity && lines[k].price == all[i].price && lines[k].total
            == all[i].total by {
        if i < a.len() {
            assert(all[i] == a[i]);
        } else {
            assert(all[i] == u[i - a.len()]);
        }
    }
}

/// The app's own address always passes the origin check, whatever the CORS
/// list holds, and so does a request without an `Origin` (not a browser).
pub proof fn own_origin_passes(public_url: Seq<char>, cors_origins: Seq<Seq<char>>)
    ensures
        origin_passes(
            origin_list(public_url, cors_origins),
            Some(without_trailing_slashes(public_url)),
        ),
        origin_passes(origin_list(public_url, cors_origins), None),
{
    assert(origin_list(public_url, cors_origins)[0] == without_trailing_slashes(public_url));
}

/// Edge also calls itself Chrome; a client that says "Edg" (and is not a
/// Firefox) is described as Edge, never as Chrome.
pub proof fn edge_is_not_taken_for_chrome(ua: Seq<char>)
    requires
        crate::text::contains(ua, "Edg"@),
        !crate::text::contains(ua, "Firefox"@),
    ensures
        first_named(ua, browsers(), 0) == Some("Edge"@),
{
    assert(browsers()[0].0@ == "Firefox"@);
    assert(browsers()[1].0@ == "Edg"@);
    assert(browsers()[1].1@ == "Edge"@);
    assert(first_named(ua, browsers(), 1) == Some("Edge"@));
}

proof fn allowed_ext_is_letters(k: int)
    requires
        0 <= k < allowed_exts().len(),
    ensures
        forall|j: int|
            0 <= j < allowed_exts()[k]@.len() ==> 'a' <= #[trigger] allowed_exts()[k]@[j] <= 'z',
{
    reveal_strlit("xlsx");
    reveal_strlit("xls");
    reveal_strlit("jpg");
    reveal_strlit("jpeg");
    reveal_strlit("png");
    reveal_strlit("webp");
}

/// The name a file is stored under, as `stored_name` makes it from any id
/// and an extension of the allowed list, holds no path separator and no
/// `..`: it names a file in the storage directory and nothing else.
pub proof fn stored_name_stays_in_its_directory(id: u128, k: int)
    requires
        0 <= k < allowed_exts().len(),
    ensures
        ({
            let name = crate::users::hyphenated_hex(id) + "."@ + allowed_exts()[k]@;
            &&& forall|i: int| 0 <= i < name.len() ==> #[trigger] name[i] != '/' && name[i] != '\\'
            &&& forall|i: int|
                0 <= i < name.len() - 1 ==> !(#[trigger] name[i] == '.' && name[i + 1] == '.')
        }),
{
    let ext = allowed_exts()[k]@;
    let h = crate::users::hyphenated_hex(id);
    let name = h + "."@ + ext;
    reveal_strlit(".");
    crate::users::hyphenated_hex_has_uuid_shape(id);
    allowed_ext_is_letters(k);
    assert forall|i: int| 0 <= i < name.len() implies ('a' <= #[trigger] name[i] <= 'z' || '0'
        <= name[i] <= '9' || name[i] == '-' || (i == 36 && name[i] == '.')) by {
        if i < 36 {
            assert(name[i] == h[i]);
            assert(crate::users::uuid_char_ok(h[i], i));
        } else if i == 36 {
            assert(name[i] == '.');
        } else {
            assert(name[i] == ext[i - 37]);
        }
    }
}

/// No row of a sheet is dropped: every row with some text in it, except
/// the header row itself, gives a line, recognised or raw; only an empty
/// row gives none.
pub proof fn no_row_is_dropped<N>(
    name: Seq<char>,
    rows: Seq<Seq<Cell<N>>>,
    header: Option<Columns>,
    index: int,
)
    ensures
        row_line(name, rows, header, index) is Some <==> raw_text_of(rows[index]).len() > 0 && !(
        header matches Some(c) && index == c.header_row),
{
}

/// Without a header nothing is guessed: a row gives no quantity and no
/// price, only the last number of the row as its total.
pub proof fn no_price_without_header<N>(name: Seq<char>, row: Seq<Cell<N>>)
    ensures
        line_of(name, row, None) matches Some(l) ==> l.quantity is None && l.price is None,
{
}

proof fn first_match_is_first(n: int, p: spec_fn(int) -> bool, from: int)
    requires
        0 <= from,
        n <= usize::MAX + 1,
    ensures
        first_match(n, p, from) matches Some(m) ==> from <= m < n && p(m as int) && forall|j: int|
            from <= j < m ==> !#[trigger] p(j),
    decreases n - from,
{
    if from < n && !p(from) {
        first_match_is_first(n, p, from + 1);
    }
}

/// The header of a table is the first of its first `SEARCH_ROWS` rows
/// whose known words meet in at least `MIN_MATCHED_COLUMNS` different
/// columns: two words in one cell are a sentence, not a header.
pub proof fn header_is_the_first_qualified_row<N>(rows: Seq<Seq<Cell<N>>>)
    ensures
        header_at(rows) matches Some(c) ==> {
            &&& c.header_row < rows.len()
            &&& c.header_row < SEARCH_ROWS
            &&& distinct_count(c.slots()) >= MIN_MATCHED_COLUMNS
            &&& forall|j: int| 0 <= j < c.header_row ==> !#[trigger] header_found(rows)(j)
        },
{
    let n = if rows.len() < SEARCH_ROWS {
        rows.len() as int
    } else {
        SEARCH_ROWS as int
    };
    first_match_is_first(n, header_found(rows), 0);
}

/// The unit price and the row total of a header are never one column, in
/// whatever order the words stand: a bare «стоимость» next to «итого» is the
/// price, alone it is the total.
pub proof fn price_and_total_differ(t: Seq<Seq<char>>, header_row: usize)
    requires
        t.len() <= usize::MAX,
    ensures
        header_columns(t, header_row).price matches Some(p) ==> header_columns(
            t,
            header_row,
        ).total != Some(p),
{
    let n = t.len() as int;
    let price = first_match(n, word_at(t, price_words()), 0);
    let total = first_match(n, total_at(t, price), 0);
    let cost = first_match(n, cost_at(t, price, total), 0);
    first_match_is_first(n, total_at(t, price), 0);
    first_match_is_first(n, cost_at(t, price, total), 0);
}

/// How many of the first `end` answer lines have a name.
pub open spec fn named_lines<N>(lines: Seq<AnswerLine<N>>, end: int) -> nat
    decreases end,
{
    if end <= 0 {
        0
    } else {
        named_lines(lines, end - 1) + if trim(lines[end - 1].name@).len() > 0 {
            1nat
        } else {
            0nat
        }
    }
}

/// How many of the first `end` unreadable pieces hold more than white space.
pub open spec fn nonblank_pieces(pieces: Seq<String>, end: int) -> nat
    decreases end,
{
    if end <= 0 {
        0
    } else {
        nonblank_pieces(pieces, end - 1) + if trim(pieces[end - 1]@).len() > 0 {
            1nat
        } else {
            0nat
        }
    }
}

proof fn answer_lines_count<N>(lines: Seq<AnswerLine<N>>, end: int)
    ensures
        answer_lines(lines, end).len() == named_lines(lines, end),
    decreases end,
{
    if end > 0 {
        answer_lines_count(lines, end - 1);
    }
}

proof fn unreadable_lines_count<N>(pieces: Seq<String>, end: int)
    ensures
        unreadable_lines::<N>(pieces, end).len() == nonblank_pieces(pieces, end),
    decreases end,
{
    if end > 0 {
        unreadable_lines_count::<N>(pieces, end - 1);
    }
}

/// Nothing of a photographed estimate is thrown away: it has one line for
/// every answer line with a name and one for every unreadable piece with
/// some text, whether its numbers agreed or not.
pub proof fn photo_keeps_every_line<N>(lines: Seq<AnswerLine<N>>, unreadable: Seq<String>)
    ensures
        lines_of_answer(lines, unreadable).len() == named_lines(lines, lines.len() as int)
            + nonblank_pieces(unreadable, unreadable.len() as int),
{
    answer_lines_count(lines, lines.len() as int);
    unreadable_lines_count::<N>(unreadable, unreadable.len() as int);
}

/// How many of the first `end` rows of a sheet hold some text and are not
/// its header row.
pub open spec fn rows_with_text<N>(rows: Seq<Seq<Cell<N>>>, header: Option<Columns>, end: int) -> nat
    decreases end,
{
    if end <= 0 {
        0
    } else {
        rows_with_text(rows, header, end - 1) + if raw_text_of(rows[end - 1]).len() > 0 && !(
        header matches Some(c) && end - 1 == c.header_row) {
            1nat
        } else {
            0nat
        }
    }
}

/// A sheet gives exactly one line per row with some text in it, the
/// header row aside: rows not understood are kept, as raw text.
pub proof fn sheet_keeps_every_row<N>(
    name: Seq<char>,
    rows: Seq<Seq<Cell<N>>>,
    header: Option<Columns>,
    end: int,
)
    ensures
        sheet_lines(name, rows, header, end).len() == rows_with_text(rows, header, end),
    decreases end,
{
    if end > 0 {
        sheet_keeps_every_row(name, rows, header, end - 1);
        no_row_is_dropped(name, rows, header, end - 1);
    }
}

/// A token read back with its claims (as `sign` and the `sign_*_at`
/// functions promise of the tokens they make) passes the check for its own
/// purpose at any time up to its expiry plus the leeway, with those claims;
/// it never passes for another purpose, and not after that time.
pub proof fn signed_token_verifies_for_its_purpose_only(
    secret: Seq<u8>,
    token: Seq<char>,
    sub: u128,
    role: Seq<char>,
    purpose: Seq<char>,
    exp: int,
    other: Seq<char>,
    now: int,
)
    requires
        jwt_hs256_claims(secret, token) == Some((sub, role, purpose, exp)),
        other != purpose,
    ensures
        now <= exp + LEEWAY_SECS ==> checked_claims(secret, token, purpose, now) == Some(
            (sub, role, purpose, exp),
        ),
        now > exp + LEEWAY_SECS ==> checked_claims(secret, token, purpose, now) is None,
        checked_claims(secret, token, other, now) is None,
{
}

/// An access token is not a pending token of the second factor, nor the
/// other way round, whatever the time.
pub proof fn access_and_pending_tokens_do_not_mix(secret: Seq<u8>, token: Seq<char>, now: int)
    ensures
        jwt_hs256_claims(secret, token) matches Some(c) && c.2 == access_purpose() ==> checked_claims(
            secret,
            token,
            pending_purpose(),
            now,
        ) is None,
        jwt_hs256_claims(secret, token) matches Some(c) && c.2 == pending_purpose() ==> checked_claims(
            secret,
            token,
            access_purpose(),
            now,
        ) is None,
{
    token_purposes_differ();
}

/// An access token made at `signed_at` (what `sign_access_at` promises of
/// its token) passes the access check at any time within its lifetime, with
/// the id and role it was made for, and never passes as the pending token
/// of the second factor.
pub proof fn access_token_reads_back_within_its_lifetime(
    secret: Seq<u8>,
    token: Seq<char>,
    sub: u128,
    role: Seq<char>,
    signed_at: int,
    checked_at: int,
)
    requires
        jwt_hs256_claims(secret, token) == Some(
            (sub, role, access_purpose(), signed_at + ACCESS_TTL_SECS),
        ),
        signed_at <= checked_at <= signed_at + ACCESS_TTL_SECS,
    ensures
        checked_claims(secret, token, access_purpose(), checked_at) == Some(
            (sub, role, access_purpose(), signed_at + ACCESS_TTL_SECS),
        ),
        checked_claims(secret, token, pending_purpose(), checked_at) is None,
{
    token_purposes_differ();
}

/// A pending token of the second factor made at `signed_at` (what
/// `sign_pending_2fa_at` promises of its token) passes its own check within
/// its lifetime, for the id it was made for, and never passes as an access
/// token.
pub proof fn pending_token_reads_back_within_its_lifetime(
    secret: Seq<u8>,
    token: Seq<char>,
    sub: u128,
    signed_at: int,
    checked_at: int,
)
    requires
        jwt_hs256_claims(secret, token) == Some(
            (sub, ""@, pending_purpose(), signed_at + PENDING_2FA_TTL_SECS),
        ),
        signed_at <= checked_at <= signed_at + PENDING_2FA_TTL_SECS,
    ensures
        checked_claims(secret, token, pending_purpose(), checked_at) == Some(
            (sub, ""@, pending_purpose(), signed_at + PENDING_2FA_TTL_SECS),
        ),
        checked_claims(secret, token, access_purpose(), checked_at) is None,
{
    token_purposes_differ();
}

/// A line that carries only the raw text of its row.
pub open spec fn raw_only<N>(l: LineModel<N>) -> bool {
    &&& l.title is None
    &&& l.unit is None
    &&& l.quantity is None
    &&& l.price is None
    &&& l.total is None
}

proof fn rows_above_header_are_raw<N>(
    name: Seq<char>,
    rows: Seq<Seq<Cell<N>>>,
    c: Columns,
    end: int,
)
    requires
        0 <= end <= c.header_row,
    ensures
        forall|j: int|
            0 <= j < sheet_lines(name, rows, Some(c), end).len() ==> raw_only(
                #[trigger] sheet_lines(name, rows, Some(c), end)[j],
            ),
    decreases end,
{
    if end > 0 {
        rows_above_header_are_raw(name, rows, c, end - 1);
        let prev = sheet_lines(name, rows, Some(c), end - 1);
        let last = opt_line(row_line(name, rows, Some(c), end - 1));
        assert(sheet_lines(name, rows, Some(c), end) == prev + last);
        assert forall|j: int|
            0 <= j < (prev + last).len() implies raw_only(#[trigger] (prev + last)[j]) by {
            if j >= prev.len() {
                assert((prev + last)[j] == last[j - prev.len()]);
            }
        }
    }
}

/// The rows of a sheet above its header (a title of the object, its
/// address, its area) are never read by the table's columns: the lines they
/// give come first among the sheet's lines and carry their raw text only,
/// with no title, unit, quantity, price or total.
pub proof fn rows_above_the_header_keep_only_their_text<N>(sheet: Sheet<N>)
    requires
        header_at(rows_of(sheet.rows@)) is Some,
    ensures
        ({
            let rows = rows_of(sheet.rows@);
            let c = header_at(rows).unwrap();
            let above = sheet_lines(sheet.name@, rows, Some(c), c.header_row as int);
            &&& lines_of_sheet(sheet).take(above.len() as int) == above
            &&& forall|j: int| 0 <= j < above.len() ==> raw_only(#[trigger] above[j])
        }),
{
    let rows = rows_of(sheet.rows@);
    let c = header_at(rows).unwrap();
    header_is_the_first_qualified_row(rows);
    crate::estimates::parse::lemma_sheet_prefix(
        sheet.name@,
        rows,
        Some(c),
        c.header_row as int,
        rows.len() as int,
    );
    rows_above_header_are_raw(sheet.name@, rows, c, c.header_row as int);
}

/// A recognised line read by a header that names a unit column has as its
/// unit the trimmed text of that column's cell, whenever that text is not
/// empty and not longer than `MAX_UNIT_LEN`, whatever the text says ("м",
/// "кв.м", "шт" or anything else).
pub proof fn unit_column_gives_the_unit<N>(sheet: Seq<char>, row: Seq<Cell<N>>, c: Columns)
    requires
        c.unit matches Some(k) && k < row.len() && 0 < trim(row[k as int].text@).len()
            <= crate::estimates::parse::line::MAX_UNIT_LEN,
    ensures
        line_of(sheet, row, Some(c)) is Some && line_of(sheet, row, Some(c)).unwrap().recognized()
            ==> line_of(sheet, row, Some(c)).unwrap().unit == Some(
            trim(row[c.unit.unwrap() as int].text@),
        ),
{
}

/// Each photo extension is checked by its own format's signature: a JPEG
/// starts FF D8 FF, a PNG with its eight-byte signature, a WebP with "RIFF"
/// and has "WEBP" at bytes 8 to 12.
pub proof fn photo_is_checked_by_its_own_signature(bytes: Seq<u8>)
    ensures
        crate::estimates::photo_bytes_match("webp"@, bytes) <==> (bytes.len() >= 12 && bytes[0]
            == 0x52 && bytes[1] == 0x49 && bytes[2] == 0x46 && bytes[3] == 0x46 && bytes[8] == 0x57
            && bytes[9] == 0x45 && bytes[10] == 0x42 && bytes[11] == 0x50),
        crate::estimates::photo_bytes_match("jpg"@, bytes) <==> (bytes.len() >= 3 && bytes[0]
            == 0xFF && bytes[1] == 0xD8 && bytes[2] == 0xFF),
        crate::estimates::photo_bytes_match("jpeg"@, bytes) <==> (bytes.len() >= 3 && bytes[0]
            == 0xFF && bytes[1] == 0xD8 && bytes[2] == 0xFF),
        crate::estimates::photo_bytes_match("png"@, bytes) <==> (bytes.len() >= 8 && bytes[0]
            == 0x89 && bytes[1] == 0x50 && bytes[2] == 0x4E && bytes[3] == 0x47 && bytes[4] == 0x0D
            && bytes[5] == 0x0A && bytes[6] == 0x1A && bytes[7] == 0x0A),
{
    reveal_strlit("webp");
    reveal_strlit("jpg");
    reveal_strlit("jpeg");
    reveal_strlit("png");
    assert("webp"@ != "jpg"@ && "webp"@ != "jpeg"@ && "webp"@ != "png"@) by {
        assert("webp"@[0] != "jpg"@[0]);
        assert("webp"@.len() != "jpg"@.len());
        assert("webp"@[0] != "png"@[0]);
    }
    assert("png"@ != "jpg"@ && "png"@ != "jpeg"@) by {
        assert("png"@[0] != "jpg"@[0]);
        assert("png"@.len() != "jpeg"@.len());
    }
    let w = seq![0x52u8, 0x49u8, 0x46u8, 0x46u8];
    let j = seq![0xFFu8, 0xD8u8, 0xFFu8];
    let p = seq![0x89u8, 0x50u8, 0x4Eu8, 0x47u8, 0x0Du8, 0x0Au8, 0x1Au8, 0x0Au8];
    if bytes.len() >= 4 {
        assert((bytes.take(4) == w) <==> (bytes[0] == 0x52 && bytes[1] == 0x49 && bytes[2] == 0x46
            && bytes[3] == 0x46)) by {
            if bytes[0] == 0x52 && bytes[1] == 0x49 && bytes[2] == 0x46 && bytes[3] == 0x46 {
                assert(bytes.take(4) =~= w);
            }
        }
    }
    if bytes.len() >= 12 {
        let sub = seq![0x57u8, 0x45u8, 0x42u8, 0x50u8];
        assert((bytes.subrange(8, 12) == sub) <==> (bytes[8] == 0x57 && bytes[9] == 0x45
            && bytes[10] == 0x42 && bytes[11] == 0x50)) by {
            if bytes[8] == 0x57 && bytes[9] == 0x45 && bytes[10] == 0x42 && bytes[11] == 0x50 {
                assert(bytes.subrange(8, 12) =~= sub);
            } else if bytes.subrange(8, 12) == sub {
                assert(bytes.subrange(8, 12)[0] == bytes[8]);
                assert(bytes.subrange(8, 12)[1] == bytes[9]);
                assert(bytes.subrange(8, 12)[2] == bytes[10]);
                assert(bytes.subrange(8, 12)[3] == bytes[11]);
            }
        }
    }
    if bytes.len() >= 3 {
        assert((bytes.take(3) == j) <==> (bytes[0] == 0xFF && bytes[1] == 0xD8 && bytes[2]
            == 0xFF)) by {
            if bytes[0] == 0xFF && bytes[1] == 0xD8 && bytes[2] == 0xFF {
                assert(bytes.take(3) =~= j);
            }
        }
    }
    if bytes.len() >= 8 {
        assert((bytes.take(8) == p) <==> (bytes[0] == 0x89 && bytes[1] == 0x50 && bytes[2] == 0x4E
            && bytes[3] == 0x47 && bytes[4] == 0x0D && bytes[5] == 0x0A && bytes[6] == 0x1A
            && bytes[7] == 0x0A)) by {
            if bytes[0] == 0x89 && bytes[1] == 0x50 && bytes[2] == 0x4E && bytes[3] == 0x47
                && bytes[4] == 0x0D && bytes[5] == 0x0A && bytes[6] == 0x1A && bytes[7] == 0x0A {
                assert(bytes.take(8) =~= p);
            }
        }
    }
}

/// Every Android user agent also says "Linux": a client that says
/// "Android" (and not "Windows") is described with the system Android,
/// after its browser if one is recognised.
pub proof fn android_is_not_taken_for_linux(ua: Seq<char>)
    requires
        crate::text::contains(ua, "Android"@),
        !crate::text::contains(ua, "Windows"@),
    ensures
        crate::auth::sessions::client_description(ua) == Some(
            match first_named(ua, browsers(), 0) {
                Some(b) => b + ", "@ + "Android"@,
                None => "Android"@,
            },
        ),
{
    let t = crate::auth::sessions::systems();
    assert(t[0].0@ == "Windows"@);
    assert(t[1].0@ == "Android"@);
    assert(t[1].1@ == "Android"@);
    assert(first_named(ua, t, 1) == Some("Android"@));
    assert(first_named(ua, t, 0) == Some("Android"@));
}

} // verus!
