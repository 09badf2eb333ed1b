use timeseries_analysis::decimal::{decimal, push_decimal};
use timeseries_analysis::plot::{
    axis_line, columns_of, dashes, label_line, range_notice, render, right_align, rule_len,
    shape_notice, Band, Mark, LABEL_WIDTH, MAX_RULE, PLOT_HEIGHT,
};

const INVALID: &str = "Dados inválidos para plotagem";
const NARROW: &str = "Intervalo de dados muito pequeno para plotagem";

fn lowest(values: &[f64], other: &[f64]) -> f64 {
    values.iter().chain(other.iter()).fold(f64::INFINITY, |a, &b| a.min(b))
}

fn highest(values: &[f64], other: &[f64]) -> f64 {
    values.iter().chain(other.iter()).fold(f64::NEG_INFINITY, |a, &b| a.max(b))
}

fn bands_of(actual: &[f64], predicted: &[f64]) -> Vec<Band> {
    let min_val = lowest(actual, predicted);
    let range = highest(actual, predicted) - min_val;
    (0..PLOT_HEIGHT)
        .map(|row| {
            let threshold = min_val + (range * (row as f64) / (PLOT_HEIGHT as f64));
            Band::new(
                format!("{:.1}", threshold),
                actual.iter().map(|&v| v >= threshold).collect(),
                predicted.iter().map(|&v| v >= threshold).collect(),
            )
        })
        .collect()
}

fn plot(actual: &[f64], predicted: &[f64], title: &str) -> Vec<String> {
    if let Some(notice) = shape_notice(actual.len(), predicted.len()) {
        return vec![notice];
    }
    let range = highest(actual, predicted) - lowest(actual, predicted);
    if range.abs() < f64::EPSILON {
        return vec![range_notice()];
    }
    render(title, &bands_of(actual, predicted))
}

fn flat_bands(columns: usize) -> Vec<Band> {
    (0..PLOT_HEIGHT)
        .map(|_| Band::new(String::from("0.0"), vec![true; columns], vec![false; columns]))
        .collect()
}

#[test]
fn test_documentacao_exemplos() {
    let dados = vec![1.0, 2.0, 3.0, 4.0, 5.0];
    let previstos = vec![1.0, 2.0, 3.0, 4.0, 5.0];

    let lines = plot(&dados, &previstos, "Teste");
    let expected = vec![
        "",
        "Teste",
        "----------------------",
        "     4.6 |         ●",
        "     4.2 |         ●",
        "     3.8 |       ● ●",
        "     3.4 |       ● ●",
        "     3.0 |     ● ● ●",
        "     2.6 |     ● ● ●",
        "     2.2 |     ● ● ●",
        "     1.8 |   ● ● ● ●",
        "     1.4 |   ● ● ● ●",
        "     1.0 | ● ● ● ● ●",
        "         |------------",
        "          1  2  3  4  5 ",
        "          Periodo",
        "",
        "Legenda:",
        "  o = Valor Real",
        "  x = Valor Previsto",
        "  ● = Real e Previsto (sobrepostos)",
    ];
    assert_eq!(lines, expected);
}

#[test]
fn test_ascii_plot_dados_invalidos() {
    assert_eq!(plot(&[], &[], "Vazio"), vec![INVALID]);
    assert_eq!(plot(&[1.0], &[1.0, 2.0], "Tamanhos diferentes"), vec![INVALID]);
}

#[test]
fn test_ascii_plot_dados_constantes() {
    let data = vec![5.0, 5.0, 5.0];
    assert_eq!(plot(&data, &data, "Constantes"), vec![NARROW]);
}

#[test]
fn chart_tells_the_two_series_apart() {
    let actual = vec![1.0, 2.0, 3.0, 4.0, 5.0];
    let predicted = vec![5.0, 4.0, 3.0, 2.0, 1.0];
    let lines = plot(&actual, &predicted, "Cruzadas");
    assert_eq!(lines.len(), PLOT_HEIGHT + 11);
    assert_eq!(lines[1], "Cruzadas");
    assert_eq!(lines[3], "     4.6 | x       o");
    assert_eq!(lines[4], "     4.2 | x       o");
    assert_eq!(lines[5], "     3.8 | x x   o o");
    assert_eq!(lines[6], "     3.4 | x x   o o");
    assert_eq!(lines[7], "     3.0 | x x ● o o");
    assert_eq!(lines[8], "     2.6 | x x ● o o");
    assert_eq!(lines[9], "     2.2 | x x ● o o");
    assert_eq!(lines[10], "     1.8 | x ● ● ● o");
    assert_eq!(lines[11], "     1.4 | x ● ● ● o");
    assert_eq!(lines[12], "     1.0 | ● ● ● ● ●");
}

#[test]
fn chart_of_one_period() {
    let lines = plot(&[2.0], &[4.0], "Um");
    assert_eq!(lines[2], "--------------");
    assert_eq!(lines[3], "     3.8 | x");
    assert_eq!(lines[11], "     2.2 | x");
    assert_eq!(lines[12], "     2.0 | ●");
    assert_eq!(lines[13], "         |----");
    assert_eq!(lines[14], "          1 ");
}

#[test]
fn bands_are_drawn_from_the_highest_down() {
    let bands: Vec<Band> = (0..PLOT_HEIGHT)
        .map(|row| Band::new(format!("b{}", row), vec![row % 2 == 0], vec![row >= 5]))
        .collect();
    let lines = render("T", &bands);
    assert_eq!(lines.len(), 21);
    assert_eq!(lines[3], "      b9 | x");
    assert_eq!(lines[4], "      b8 | ●");
    assert_eq!(lines[7], "      b5 | x");
    assert_eq!(lines[8], "      b4 | o");
    assert_eq!(lines[9], "      b3 |  ");
    assert_eq!(lines[12], "      b0 | o");
}

#[test]
fn long_label_is_not_cut() {
    let mut bands = flat_bands(2);
    bands[9] = Band::new(String::from("-123456789.5"), vec![true, false], vec![true, true]);
    bands[0] = Band::new(String::from("12345678"), vec![false, false], vec![false, true]);
    let lines = render("T", &bands);
    assert_eq!(lines[3], "-123456789.5 | ● x");
    assert_eq!(lines[4], "     0.0 | o o");
    assert_eq!(lines[12], "12345678 |   x");
}

#[test]
fn rule_stops_growing_at_thirty_columns() {
    assert_eq!(MAX_RULE, 60);
    assert_eq!(rule_len(0), 0);
    assert_eq!(rule_len(1), 2);
    assert_eq!(rule_len(29), 58);
    assert_eq!(rule_len(30), 60);
    assert_eq!(rule_len(31), 60);
    assert_eq!(rule_len(usize::MAX), 60);

    let lines = render("Largo", &flat_bands(40));
    assert_eq!(lines[2], "-".repeat(72));
    assert_eq!(lines[13], format!("         |{}", "-".repeat(62)));
    assert_eq!(lines[3].chars().count(), 8 + 3 + 79);
    assert!(lines[14].starts_with("          1  2  3  4  5  6  7  8  9  10  11 "));
    assert!(lines[14].ends_with(" 39  40 "));
}

#[test]
fn malformed_bands_draw_nothing() {
    assert_eq!(render("T", &Vec::new()), vec![INVALID]);
    assert_eq!(render("T", &flat_bands(0)), vec![INVALID]);

    let mut short = flat_bands(3);
    short.pop();
    assert_eq!(render("T", &short), vec![INVALID]);

    let mut tall = flat_bands(3);
    tall.push(Band::new(String::from("x"), vec![true; 3], vec![true; 3]));
    assert_eq!(render("T", &tall), vec![INVALID]);

    let mut ragged = flat_bands(3);
    ragged[4] = Band::new(String::from("x"), vec![true; 2], vec![true; 2]);
    assert_eq!(render("T", &ragged), vec![INVALID]);

    let mut uneven = flat_bands(3);
    uneven[7] = Band::new(String::from("x"), vec![true; 3], vec![true; 4]);
    assert_eq!(render("T", &uneven), vec![INVALID]);

    let mut uneven_first = flat_bands(3);
    uneven_first[0] = Band::new(String::from("x"), vec![true; 3], vec![true; 2]);
    assert_eq!(render("T", &uneven_first), vec![INVALID]);
}

#[test]
fn columns_are_counted_only_in_a_chart() {
    assert_eq!(columns_of(&flat_bands(7)), Some(7));
    assert_eq!(columns_of(&flat_bands(1)), Some(1));
    assert_eq!(columns_of(&flat_bands(0)), None);
    assert_eq!(columns_of(&Vec::new()), None);
    let mut ragged = flat_bands(3);
    ragged[9] = Band::new(String::from("x"), vec![true; 4], vec![true; 4]);
    assert_eq!(columns_of(&ragged), None);
}

#[test]
fn notices_have_their_texts() {
    assert_eq!(shape_notice(0, 0), Some(String::from(INVALID)));
    assert_eq!(shape_notice(1, 2), Some(String::from(INVALID)));
    assert_eq!(shape_notice(2, 1), Some(String::from(INVALID)));
    assert_eq!(shape_notice(0, 3), Some(String::from(INVALID)));
    assert_eq!(shape_notice(1, 1), None);
    assert_eq!(shape_notice(5, 5), None);
    assert_eq!(range_notice(), NARROW);
}

#[test]
fn marks_and_glyphs() {
    assert_eq!(Mark::classify(true, true), Mark::Overlap);
    assert_eq!(Mark::classify(true, false), Mark::Actual);
    assert_eq!(Mark::classify(false, true), Mark::Predicted);
    assert_eq!(Mark::classify(false, false), Mark::Blank);
    assert_eq!(Mark::Overlap.glyph_text(), "●");
    assert_eq!(Mark::Actual.glyph_text(), "o");
    assert_eq!(Mark::Predicted.glyph_text(), "x");
    assert_eq!(Mark::Blank.glyph_text(), " ");
}

#[test]
fn text_is_set_flush_right() {
    assert_eq!(LABEL_WIDTH, 8);
    assert_eq!(right_align("4.6", 8), "     4.6");
    assert_eq!(right_align("-12.5", 8), "   -12.5");
    assert_eq!(right_align("", 3), "   ");
    assert_eq!(right_align("12345678", 8), "12345678");
    assert_eq!(right_align("123456789", 8), "123456789");
    assert_eq!(right_align("abc", 0), "abc");
    assert_eq!(right_align("●", 3), "  ●");
    assert_eq!(right_align("4.6", 8), format!("{:>8}", "4.6"));
}

#[test]
fn dashes_are_counted() {
    assert_eq!(dashes(0), "");
    assert_eq!(dashes(1), "-");
    assert_eq!(dashes(22), "----------------------");
    assert_eq!(dashes(72), "-".repeat(72));
}

#[test]
fn axis_is_two_dashes_longer_than_the_columns_ask() {
    assert_eq!(axis_line(0), "         |--");
    assert_eq!(axis_line(5), "         |------------");
    assert_eq!(axis_line(30), format!("         |{}", "-".repeat(62)));
    assert_eq!(axis_line(1000), format!("         |{}", "-".repeat(62)));
}

#[test]
fn periods_are_labelled_from_one() {
    assert_eq!(label_line(0), "          ");
    assert_eq!(label_line(1), "          1 ");
    assert_eq!(label_line(2), "          1  2 ");
    assert_eq!(label_line(5), "          1  2  3  4  5 ");
    assert_eq!(
        label_line(12),
        "          1  2  3  4  5  6  7  8  9  10  11  12 "
    );
}

#[test]
fn numbers_are_written_in_decimal() {
    assert_eq!(decimal(0), "0");
    assert_eq!(decimal(7), "7");
    assert_eq!(decimal(9), "9");
    assert_eq!(decimal(10), "10");
    assert_eq!(decimal(99), "99");
    assert_eq!(decimal(100), "100");
    assert_eq!(decimal(1234567890), "1234567890");
    assert_eq!(decimal(usize::MAX), format!("{}", usize::MAX));
    for n in 0..2000usize {
        assert_eq!(decimal(n), format!("{}", n));
        assert_eq!(decimal(n).parse::<usize>(), Ok(n));
    }
}

#[test]
fn decimal_is_appended_to_what_is_there() {
    let mut text = String::from("n = ");
    push_decimal(&mut text, 405);
    assert_eq!(text, "n = 405");
    push_decimal(&mut text, 0);
    assert_eq!(text, "n = 4050");
}

#[test]
fn aligned_label_fills_a_field_of_eight() {
    let values = [
        4.6,
        0.0,
        -0.04,
        -12.55,
        99999.94,
        999999.96,
        12345678.9,
        -1.0e12,
        1.0e-9,
        f64::INFINITY,
        f64::NEG_INFINITY,
        f64::NAN,
    ];
    for value in values {
        assert_eq!(
            right_align(&format!("{:.1}", value), LABEL_WIDTH),
            format!("{:8.1}", value)
        );
    }
}

#[test]
fn printed_chart_reads_as_one_text() {
    let actual = vec![10.0, 30.0];
    let predicted = vec![20.0, 20.0];
    let mut text = String::new();
    for line in plot(&actual, &predicted, "Duas") {
        text.push_str(&line);
        text.push('\n');
    }
    let expected = "\nDuas\n\
----------------\n\
\x20   28.0 |   o\n\
\x20   26.0 |   o\n\
\x20   24.0 |   o\n\
\x20   22.0 |   o\n\
\x20   20.0 | x ●\n\
\x20   18.0 | x ●\n\
\x20   16.0 | x ●\n\
\x20   14.0 | x ●\n\
\x20   12.0 | x ●\n\
\x20   10.0 | ● ●\n\
\x20        |------\n\
\x20         1  2 \n\
\x20         Periodo\n\
\nLegenda:\n\
\x20 o = Valor Real\n\
\x20 x = Valor Previsto\n\
\x20 ● = Real e Previsto (sobrepostos)\n";
    assert_eq!(text, expected);
}
