use smeta_check::estimates::parse::header::{find, Columns};
use smeta_check::estimates::parse::line::parse;
use smeta_check::estimates::parse::{finish, Cell, ParseError, ParsedLine};
use smeta_check::estimates::photo::{json_span, to_lines, AnswerLine};
use smeta_check::estimates::{clean_file_name, extension_of, MAX_FILE_NAME_LEN};

fn text_row(texts: &[&str]) -> Vec<Cell<f64>> {
    texts
        .iter()
        .map(|text| Cell {
            text: (*text).to_owned(),
            number: None,
        })
        .collect()
}

fn row(cells: &[(&str, Option<f64>)]) -> Vec<Cell<f64>> {
    cells
        .iter()
        .map(|(text, number)| Cell {
            text: (*text).to_owned(),
            number: *number,
        })
        .collect()
}

fn columns() -> Columns {
    Columns {
        header_row: 0,
        title: Some(0),
        unit: Some(1),
        quantity: Some(2),
        price: Some(3),
        total: Some(4),
    }
}

fn empty_line(title: Option<&str>, quantity: Option<f64>) -> ParsedLine<f64> {
    ParsedLine {
        sheet: String::new(),
        raw_text: String::new(),
        title: title.map(|t| t.to_owned()),
        unit: None,
        quantity,
        price: None,
        total: None,
    }
}

/// What the app does with a model's answer before the library takes it:
/// numbers that are zero or negative are empty cells, and the three that
/// are left must agree within a percent.
fn usable(value: Option<f64>) -> Option<f64> {
    value.filter(|v| v.is_finite() && *v > 0.0)
}

fn numbers_agree(quantity: Option<f64>, price: Option<f64>, total: Option<f64>) -> bool {
    let (Some(quantity), Some(price), Some(total)) = (quantity, price, total) else {
        return true;
    };
    let expected = quantity * price;
    (expected - total).abs() <= (total.abs() * 0.01).max(0.01)
}

fn lines_of(answer: &str) -> Vec<ParsedLine<f64>> {
    let span = json_span(answer).expect("answer holds JSON");
    let value: serde_json::Value = serde_json::from_str(&span).expect("answer parsed");
    let mut lines = Vec::new();
    if let Some(items) = value.get("lines").and_then(|v| v.as_array()) {
        for item in items {
            let name = item.get("name").and_then(|v| v.as_str()).unwrap_or("").to_owned();
            let unit = item.get("unit").and_then(|v| v.as_str()).map(|s| s.to_owned());
            let quantity = usable(item.get("quantity").and_then(|v| v.as_f64()));
            let price = usable(item.get("price").and_then(|v| v.as_f64()));
            let total = usable(item.get("total").and_then(|v| v.as_f64()));
            let number_texts = [quantity, price, total]
                .into_iter()
                .flatten()
                .map(|n| format!("{n}"))
                .collect();
            lines.push(AnswerLine {
                name,
                unit,
                quantity,
                price,
                total,
                numbers_agree: numbers_agree(quantity, price, total),
                number_texts,
            });
        }
    }
    let unreadable: Vec<String> = value
        .get("unreadable")
        .and_then(|v| v.as_array())
        .map(|a| a.iter().filter_map(|v| v.as_str().map(|s| s.to_owned())).collect())
        .unwrap_or_default();
    to_lines(&lines, &unreadable)
}

#[test]
fn extension_is_taken_from_the_allowed_list() {
    assert_eq!(extension_of("смета.XLSX"), Some("xlsx"));
    assert_eq!(extension_of("smeta.xls"), Some("xls"));
    assert_eq!(extension_of("smeta.pdf"), None);
    assert_eq!(extension_of("smeta"), None);
    assert_eq!(extension_of("smeta.xlsx/../../etc/passwd"), None);
}

#[test]
fn long_file_name_is_cut() {
    let name = clean_file_name(&format!("  {}  ", "я".repeat(500)));
    assert_eq!(name.chars().count(), MAX_FILE_NAME_LEN);
}

#[test]
fn header_is_found_below_the_title_block() {
    let rows = vec![
        text_row(&["Смета на ремонт двухкомнатной квартиры"]),
        text_row(&[""]),
        text_row(&["Наименование работ", "ед.изм.", "кол-во", "цена", "сумма"]),
        text_row(&["Штукатурка стен", "кв.м.", "12", "740", "8880"]),
    ];
    let columns = find(&rows).expect("шапка обязана найтись");
    assert_eq!(columns.header_row, 2);
    assert_eq!(columns.title, Some(0));
    assert_eq!(columns.unit, Some(1));
    assert_eq!(columns.quantity, Some(2));
    assert_eq!(columns.price, Some(3));
    assert_eq!(columns.total, Some(4));
}

#[test]
fn table_without_header_is_not_invented() {
    let rows = vec![text_row(&["Штукатурка стен", "12", "740"])];
    assert_eq!(find(&rows), None);
}

#[test]
fn sentence_with_two_words_in_one_cell_is_not_a_header() {
    let rows = vec![
        text_row(&["Для работы используйте шаблоны с объемами работ по вашей квартире"]),
        text_row(&[
            "Демонтаж стен",
            "Расценка, руб",
            "Объем",
            "Ед. изм.",
            "Стоимость, руб",
        ]),
    ];
    let columns = find(&rows).expect("настоящая шапка строкой ниже");
    assert_eq!(columns.header_row, 1);
    assert_eq!(columns.price, Some(1));
    assert_eq!(columns.quantity, Some(2));
    assert_eq!(columns.total, Some(4), "одинокая «стоимость» — сумма строки");
}

#[test]
fn cost_next_to_itogo_is_a_price_not_a_total() {
    let rows = vec![text_row(&[
        "№ п/п",
        "Наименование работ",
        "Ед.изм.",
        "Кол-во",
        "Стоимость",
        "Итого",
    ])];
    let columns = find(&rows).expect("шапка");
    assert_eq!(columns.price, Some(4), "«Стоимость» рядом с «Итого» — цена за единицу");
    assert_eq!(columns.total, Some(5));
}

#[test]
fn bare_kol_column_is_quantity() {
    let rows = vec![text_row(&[
        "№",
        "Наименование затрат",
        "Кол",
        "Цена,р",
        "Стоимость, руб",
    ])];
    let columns = find(&rows).expect("шапка");
    assert_eq!(columns.quantity, Some(2));
    assert_eq!(columns.total, Some(4));
}

#[test]
fn work_line_is_parsed_by_columns() {
    let cells = row(&[
        ("Штукатурка стен", None),
        ("кв.м.", None),
        ("12", Some(12.0)),
        ("740", Some(740.0)),
        ("8880", Some(8880.0)),
    ]);
    let parsed = parse("Смета", &cells, Some(&columns())).expect("строка разобрана");
    assert_eq!(parsed.title.as_deref(), Some("Штукатурка стен"));
    assert_eq!(parsed.unit.as_deref(), Some("кв.м."));
    assert_eq!(parsed.quantity, Some(12.0));
    assert_eq!(parsed.price, Some(740.0));
    assert_eq!(parsed.total, Some(8880.0));
    assert!(parsed.is_recognized());
}

#[test]
fn section_header_stays_raw() {
    let cells = row(&[("СТЕНЫ", None)]);
    let parsed = parse("Смета", &cells, Some(&columns())).expect("строка есть");
    assert_eq!(parsed.title, None, "заголовок раздела — не позиция сметы");
    assert_eq!(parsed.raw_text, "СТЕНЫ");
}

#[test]
fn price_written_words_leaves_the_line_partly_raw() {
    let cells = row(&[
        ("Натяжной потолок", None),
        ("кв.м.", None),
        ("5", Some(5.0)),
        ("от 600", None),
        ("3000", Some(3000.0)),
    ]);
    let parsed = parse("Смета", &cells, Some(&columns())).expect("строка разобрана");
    assert_eq!(parsed.price, None);
    assert_eq!(parsed.quantity, Some(5.0));
    assert!(parsed.raw_text.contains("от 600"));
}

#[test]
fn without_header_only_the_last_number_is_trusted() {
    let cells = row(&[
        ("Демонтаж плитки", None),
        ("12", Some(12.0)),
        ("540", Some(540.0)),
        ("6480", Some(6480.0)),
    ]);
    let parsed = parse("Лист1", &cells, None).expect("строка разобрана");
    assert_eq!(parsed.title.as_deref(), Some("Демонтаж плитки"));
    assert_eq!(parsed.total, Some(6480.0));
    assert_eq!(parsed.price, None, "цену без шапки не угадываем");
}

#[test]
fn empty_row_is_skipped() {
    assert!(parse("Смета", &row(&[("", None), ("  ", None)]), None).is_none());
}

#[test]
fn unit_is_not_mistaken_for_a_title() {
    let cells = row(&[
        ("", None),
        ("кв.м.", None),
        ("Стяжка пола", None),
        ("8", Some(8.0)),
    ]);
    let parsed = parse("Смета", &cells, None).expect("строка разобрана");
    assert_eq!(parsed.title.as_deref(), Some("Стяжка пола"));
    assert_eq!(parsed.unit.as_deref(), Some("кв.м."));
}

#[test]
fn line_without_numbers_is_not_recognized() {
    let section = empty_line(Some("СТЕНЫ"), None);
    assert!(!section.is_recognized());
    let work = empty_line(Some("Штукатурка стен"), Some(12.0));
    assert!(work.is_recognized());
}

#[test]
fn empty_book_is_an_error_not_an_empty_estimate() {
    assert_eq!(finish::<f64>(Vec::new()).unwrap_err(), ParseError::NoData);
}

#[test]
fn answer_in_markdown_fence_is_still_read() {
    let lines = lines_of(
        "Вот смета:\n```json\n{\"lines\":[{\"name\":\"Штукатурка стен\",\
         \"unit\":\"м2\",\"quantity\":10,\"price\":350,\"total\":3500}]}\n```",
    );
    assert_eq!(lines.len(), 1);
    assert_eq!(lines[0].title.as_deref(), Some("Штукатурка стен"));
    assert_eq!(lines[0].total, Some(3500.0));
}

#[test]
fn line_whose_numbers_disagree_keeps_text_and_loses_numbers() {
    let lines = lines_of(
        "{\"lines\":[{\"name\":\"Стяжка пола\",\"quantity\":10,\"price\":350,\"total\":9999}]}",
    );
    assert_eq!(lines.len(), 1, "строку выбрасывать нельзя");
    assert_eq!(lines[0].title, None, "числа спорят — строка не распознана");
    assert_eq!(lines[0].price, None);
    assert!(lines[0].raw_text.contains("Стяжка пола"));
}

#[test]
fn zeroes_in_empty_cells_do_not_become_numbers() {
    let lines =
        lines_of("{\"lines\":[{\"name\":\"СТЕНЫ\",\"quantity\":0,\"price\":0,\"total\":0}]}");
    assert_eq!(lines[0].title.as_deref(), Some("СТЕНЫ"));
    assert_eq!(lines[0].quantity, None);
    assert!(!lines[0].is_recognized(), "заголовок раздела — не позиция");
}

#[test]
fn unreadable_pieces_are_kept_as_raw_lines() {
    let lines = lines_of("{\"lines\":[],\"unreadable\":[\"нижняя строка смазана\"]}");
    assert_eq!(lines.len(), 1);
    assert_eq!(lines[0].raw_text, "нижняя строка смазана");
    assert_eq!(lines[0].title, None);
}

#[test]
fn text_without_json_is_a_bad_answer() {
    assert!(json_span("извините, я не вижу смету на этой фотографии").is_none());
}
