//! The chart of two series on a character grid.
//!
//! The chart has ten bands, stacked from the lowest values at the bottom to
//! the highest at the top, and one column per period. A cell tells which of
//! the two series reach the band in that period. Whoever scales the values
//! hands over the bands; this module lays them out as lines of text.

use vstd::prelude::*;
use vstd::string::*;
use crate::decimal::{decimal_digits, push_decimal};
use crate::shape::{comparable, series_comparable};

verus! {

/// The number of bands in a chart.
pub const PLOT_HEIGHT: usize = 10;

/// The width of the field in which a band's label is set flush right.
pub const LABEL_WIDTH: usize = 8;

/// The longest run of dashes that the columns can ask for.
pub const MAX_RULE: usize = 60;

/// Which of the two series reach a band in one period.
#[derive(Debug, Clone, Copy, PartialEq, Eq, Structural)]
pub enum Mark {
    /// Neither series reaches the band.
    Blank,
    /// Only the observed series reaches the band.
    Actual,
    /// Only the fitted series reaches the band.
    Predicted,
    /// Both series reach the band.
    Overlap,
}

impl Mark {
    /// The mark of a cell, by whether each series reaches the band.
    pub open spec fn of(is_actual: bool, is_predicted: bool) -> Mark {
        if is_actual && is_predicted {
            Mark::Overlap
        } else if is_actual {
            Mark::Actual
        } else if is_predicted {
            Mark::Predicted
        } else {
            Mark::Blank
        }
    }

    /// The character drawn for the mark.
    pub open spec fn glyph(self) -> char {
        match self {
            Mark::Blank => ' ',
            Mark::Actual => 'o',
            Mark::Predicted => 'x',
            Mark::Overlap => '●',
        }
    }

    /// The mark of a cell in which the observed series reaches the band if
    /// `is_actual` and the fitted series if `is_predicted`.
    pub fn classify(is_actual: bool, is_predicted: bool) -> (mark: Mark)
        ensures
            mark == Mark::of(is_actual, is_predicted),
    {
        if is_actual && is_predicted {
            Mark::Overlap
        } else if is_actual {
            Mark::Actual
        } else if is_predicted {
            Mark::Predicted
        } else {
            Mark::Blank
        }
    }

    /// The text of the mark's glyph.
    pub fn glyph_text(self) -> (text: &'static str)
        ensures
            text@ == seq![self.glyph()],
    {
        proof {
            reveal_strlit(" ");
            reveal_strlit("o");
            reveal_strlit("x");
            reveal_strlit("●");
        }
        let text = match self {
            Mark::Blank => " ",
            Mark::Actual => "o",
            Mark::Predicted => "x",
            Mark::Overlap => "●",
        };
        assert(text@ =~= seq![self.glyph()]);
        text
    }
}

/// `count` copies of `c`.
pub open spec fn run_of(c: char, count: nat) -> Seq<char> {
    Seq::new(count, |i: int| c)
}

/// `text` set flush right in a field of `width` characters; a longer text is
/// left as it is.
pub open spec fn right_aligned(text: Seq<char>, width: nat) -> Seq<char> {
    if text.len() >= width {
        text
    } else {
        run_of(' ', (width - text.len()) as nat) + text
    }
}

/// The cells of one band: the glyphs of its marks, one blank between
/// neighbours.
pub open spec fn cells(marks: Seq<Mark>) -> Seq<char> {
    Seq::new(
        if marks.len() == 0 {
            0
        } else {
            (2 * marks.len() - 1) as nat
        },
        |k: int|
            if k % 2 == 0 {
                marks[k / 2].glyph()
            } else {
                ' '
            },
    )
}

/// The number of dashes that `columns` columns ask for: two each, sixty at
/// most.
pub open spec fn rule_width(columns: nat) -> nat {
    if 2 * columns <= MAX_RULE {
        2 * columns
    } else {
        MAX_RULE as nat
    }
}

/// Appends `count` copies of the character of `unit` to `out`.
fn push_run(out: &mut String, unit: &str, count: usize)
    requires
        unit@.len() == 1,
    ensures
        final(out)@ == old(out)@ + run_of(unit@[0], count as nat),
{
    let mut done: usize = 0;
    while done < count
        invariant
            done <= count,
            unit@.len() == 1,
            out@ == old(out)@ + run_of(unit@[0], done as nat),
        decreases count - done,
    {
        out.append(unit);
        done = done + 1;
        assert(out@ =~= old(out)@ + run_of(unit@[0], done as nat));
    }
}

/// A run of `count` dashes.
pub fn dashes(count: usize) -> (text: String)
    ensures
        text@ == run_of('-', count as nat),
{
    proof {
        reveal_strlit("-");
    }
    let mut text = String::new();
    push_run(&mut text, "-", count);
    assert(text@ =~= run_of('-', count as nat));
    text
}

/// The number of dashes that `columns` columns ask for.
pub fn rule_len(columns: usize) -> (len: usize)
    ensures
        len == rule_width(columns as nat),
{
    if columns <= MAX_RULE / 2 {
        2 * columns
    } else {
        MAX_RULE
    }
}

/// `text` set flush right in a field of `width` characters.
pub fn right_align(text: &str, width: usize) -> (out: String)
    ensures
        out@ == right_aligned(text@, width as nat),
{
    proof {
        reveal_strlit(" ");
    }
    let len = text.unicode_len();
    let mut out = String::new();
    if len < width {
        push_run(&mut out, " ", width - len);
    }
    out.append(text);
    assert(out@ =~= right_aligned(text@, width as nat));
    out
}

/// The labels under the columns: the periods, counted from one, each
/// followed by a blank, with one more blank between neighbours.
pub open spec fn period_labels(columns: nat) -> Seq<char>
    decreases columns,
{
    if columns == 0 {
        Seq::empty()
    } else {
        period_labels((columns - 1) as nat) + (if columns > 1 {
            seq![' ']
        } else {
            Seq::empty()
        }) + decimal_digits(columns) + seq![' ']
    }
}

/// The first line shown in place of a chart when the two series cannot be
/// compared period by period.
pub open spec fn invalid_data_notice() -> Seq<char> {
    "Dados inválidos para plotagem"@
}

/// The line shown in place of a chart when the values span too little to be
/// told apart.
pub open spec fn narrow_range_notice() -> Seq<char> {
    "Intervalo de dados muito pequeno para plotagem"@
}

/// One band of a chart: its label and, for each period, whether each series
/// reaches it.
#[derive(Debug, Clone)]
pub struct Band {
    /// The value at which the band starts, as text.
    pub label: String,
    /// For each period, whether the observed value reaches the band.
    pub actual: Vec<bool>,
    /// For each period, whether the fitted value reaches the band.
    pub predicted: Vec<bool>,
}

impl Band {
    /// The marks of the band, the first period first.
    pub open spec fn marks(&self) -> Seq<Mark> {
        Seq::new(self.actual@.len(), |i: int| Mark::of(self.actual@[i], self.predicted@[i]))
    }

    /// The band as a line of the chart: the label flush right in its field,
    /// a bar, and the cells.
    pub open spec fn line(&self) -> Seq<char> {
        right_aligned(self.label@, LABEL_WIDTH as nat) + " | "@ + cells(self.marks())
    }

    /// A band with the given label and reach of the two series.
    pub fn new(label: String, actual: Vec<bool>, predicted: Vec<bool>) -> (band: Band)
        ensures
            band.label@ == label@,
            band.actual@ == actual@,
            band.predicted@ == predicted@,
    {
        Band { label, actual, predicted }
    }

    /// The band as a line of the chart.
    fn render(&self) -> (text: String)
        requires
            self.actual@.len() == self.predicted@.len(),
        ensures
            text@ == self.line(),
    {
        proof {
            reveal_strlit(" ");
        }
        let mut text = right_align(self.label.as_str(), LABEL_WIDTH);
        text.append(" | ");
        let ghost head = text@;
        let columns = self.actual.len();
        let mut i: usize = 0;
        while i < columns
            invariant
                i <= columns,
                columns == self.actual@.len(),
                columns == self.predicted@.len(),
                " "@ == seq![' '],
                text@ == head + cells(self.marks().take(i as int)),
            decreases columns - i,
        {
            if i > 0 {
                text.append(" ");
            }
            let mark = Mark::classify(self.actual[i], self.predicted[i]);
            text.append(mark.glyph_text());
            i = i + 1;
            assert(text@ =~= head + cells(self.marks().take(i as int)));
        }
        assert(self.marks().take(columns as int) =~= self.marks());
        text
    }
}

/// The number of columns of a chart of `bands`: the number of periods that
/// its lowest band covers.
pub open spec fn columns(bands: Seq<Band>) -> nat {
    bands[0].actual@.len()
}

/// Whether `bands` make a chart: ten bands, each of which tells of both
/// series in the same periods, one period at least.
pub open spec fn well_formed(bands: Seq<Band>) -> bool {
    &&& bands.len() == PLOT_HEIGHT
    &&& comparable(bands[0].actual@.len(), bands[0].predicted@.len())
    &&& forall|r: int|
        0 <= r < bands.len() ==> (#[trigger] bands[r]).actual@.len() == columns(bands)
            && bands[r].predicted@.len() == columns(bands)
}

/// The lines of a chart with the given title. `bands[0]` is the lowest band
/// and is drawn last, just above the axis.
pub open spec fn chart_lines(title: Seq<char>, bands: Seq<Band>) -> Seq<Seq<char>> {
    seq![Seq::empty(), title, run_of('-', rule_width(columns(bands)) + 12)] + Seq::new(
        PLOT_HEIGHT as nat,
        |r: int| bands[PLOT_HEIGHT - 1 - r].line(),
    ) + seq![
        "         |"@ + run_of('-', rule_width(columns(bands)) + 2),
        "          "@ + period_labels(columns(bands)),
        "          Periodo"@,
        Seq::empty(),
        "Legenda:"@,
        "  o = Valor Real"@,
        "  x = Valor Previsto"@,
        "  ● = Real e Previsto (sobrepostos)"@,
    ]
}

/// What is shown for `bands` under `title`: the chart if they make one,
/// else the notice of invalid data alone.
pub open spec fn plot_lines(title: Seq<char>, bands: Seq<Band>) -> Seq<Seq<char>> {
    if well_formed(bands) {
        chart_lines(title, bands)
    } else {
        seq![invalid_data_notice()]
    }
}

/// Series that cannot be compared period by period are never drawn: all
/// that is shown for them is the notice of invalid data.
pub proof fn lemma_incomparable_series_draw_nothing(title: Seq<char>, bands: Seq<Band>)
    requires
        !comparable(bands[0].actual@.len(), bands[0].predicted@.len()),
    ensures
        plot_lines(title, bands) == seq![invalid_data_notice()],
{
}

/// A chart has three lines above its bands and eight below, and shows the
/// bands from the highest down to the lowest.
pub proof fn lemma_chart_rows(title: Seq<char>, bands: Seq<Band>)
    requires
        well_formed(bands),
    ensures
        plot_lines(title, bands).len() == PLOT_HEIGHT + 11,
        plot_lines(title, bands)[1] == title,
        forall|r: int|
            0 <= r < PLOT_HEIGHT ==> #[trigger] plot_lines(title, bands)[3 + r] == bands[PLOT_HEIGHT
                - 1 - r].line(),
{
}

/// In the line of a band whose label fits its field, the cell of period `i`
/// stands two places after the cell of the period before, the first cell
/// three places after the field, and shows the glyph of what reaches the
/// band in that period.
pub proof fn lemma_cell_position(band: Band, i: int)
    requires
        band.label@.len() <= LABEL_WIDTH,
        0 <= i < band.actual@.len(),
    ensures
        band.line().len() == LABEL_WIDTH + 2 * band.actual@.len() + 2,
        band.line()[LABEL_WIDTH + 3 + 2 * i] == Mark::of(
            band.actual@[i],
            band.predicted@[i],
        ).glyph(),
{
    reveal_strlit(" | ");
    let field = right_aligned(band.label@, LABEL_WIDTH as nat);
    assert(field.len() == LABEL_WIDTH);
    assert(cells(band.marks())[2 * i] == band.marks()[(2 * i) / 2].glyph());
}

/// Adds `text` as the last line.
fn push_line(lines: &mut Vec<String>, text: String)
    ensures
        final(lines).deep_view() == old(lines).deep_view().push(text@),
{
    lines.push(text);
    assert(lines.deep_view() =~= old(lines).deep_view().push(text@));
}

/// The number of columns of the chart that `bands` make, if they make one.
pub fn columns_of(bands: &Vec<Band>) -> (count: Option<usize>)
    ensures
        count is Some <==> well_formed(bands@),
        count matches Some(n) ==> n == columns(bands@),
{
    if bands.len() != PLOT_HEIGHT {
        return None;
    }
    let n = bands[0].actual.len();
    if !series_comparable(n, bands[0].predicted.len()) {
        return None;
    }
    let mut r: usize = 1;
    while r < PLOT_HEIGHT
        invariant
            1 <= r <= PLOT_HEIGHT,
            bands@.len() == PLOT_HEIGHT,
            n == columns(bands@),
            comparable(bands@[0].actual@.len(), bands@[0].predicted@.len()),
            forall|k: int|
                0 <= k < r ==> (#[trigger] bands@[k]).actual@.len() == n
                    && bands@[k].predicted@.len() == n,
        decreases PLOT_HEIGHT - r,
    {
        if bands[r].actual.len() != n || bands[r].predicted.len() != n {
            return None;
        }
        r = r + 1;
    }
    Some(n)
}

/// The line of the axis under a chart of `columns` columns.
pub fn axis_line(columns: usize) -> (text: String)
    ensures
        text@ == "         |"@ + run_of('-', rule_width(columns as nat) + 2),
{
    proof {
        reveal_strlit("-");
    }
    let mut text = "         |".to_owned();
    push_run(&mut text, "-", rule_len(columns) + 2);
    text
}

/// The line of period labels under a chart of `columns` columns.
pub fn label_line(columns: usize) -> (text: String)
    ensures
        text@ == "          "@ + period_labels(columns as nat),
{
    proof {
        reveal_strlit(" ");
    }
    let mut text = "          ".to_owned();
    let ghost head = text@;
    let mut i: usize = 0;
    while i < columns
        invariant
            i <= columns,
            " "@ == seq![' '],
            text@ == head + period_labels(i as nat),
        decreases columns - i,
    {
        if i > 0 {
            text.append(" ");
        }
        push_decimal(&mut text, i + 1);
        text.append(" ");
        i = i + 1;
        assert(text@ =~= head + period_labels(i as nat));
    }
    text
}

/// The notice shown in place of a chart of two series of these lengths, if
/// they cannot be compared period by period.
pub fn shape_notice(actual_len: usize, predicted_len: usize) -> (notice: Option<String>)
    ensures
        notice is Some <==> !comparable(actual_len as nat, predicted_len as nat),
        notice matches Some(text) ==> text@ == invalid_data_notice(),
{
    if series_comparable(actual_len, predicted_len) {
        None
    } else {
        Some("Dados inválidos para plotagem".to_owned())
    }
}

/// The notice shown in place of a chart of values that span too little.
pub fn range_notice() -> (text: String)
    ensures
        text@ == narrow_range_notice(),
{
    "Intervalo de dados muito pequeno para plotagem".to_owned()
}

/// The lines shown for `bands` under `title`, top line first: the chart if
/// the bands make one, else the notice of invalid data and nothing more.
pub fn render(title: &str, bands: &Vec<Band>) -> (lines: Vec<String>)
    ensures
        lines.deep_view() == plot_lines(title@, bands@),
{
    let mut lines: Vec<String> = Vec::new();
    assert(lines.deep_view() =~= Seq::<Seq<char>>::empty());
    let count = match columns_of(bands) {
        Some(n) => n,
        None => {
            push_line(&mut lines, "Dados inválidos para plotagem".to_owned());
            assert(lines.deep_view() =~= seq![invalid_data_notice()]);
            return lines;
        },
    };
    push_line(&mut lines, String::new());
    push_line(&mut lines, title.to_owned());
    push_line(&mut lines, dashes(rule_len(count) + 12));
    let ghost head = lines.deep_view();
    let mut r: usize = 0;
    while r < PLOT_HEIGHT
        invariant
            r <= PLOT_HEIGHT,
            well_formed(bands@),
            lines.deep_view() == head + Seq::new(
                r as nat,
                |k: int| bands@[PLOT_HEIGHT - 1 - k].line(),
            ),
        decreases PLOT_HEIGHT - r,
    {
        let text = bands[PLOT_HEIGHT - 1 - r].render();
        push_line(&mut lines, text);
        r = r + 1;
        assert(lines.deep_view() =~= head + Seq::new(
            r as nat,
            |k: int| bands@[PLOT_HEIGHT - 1 - k].line(),
        ));
    }
    push_line(&mut lines, axis_line(count));
    push_line(&mut lines, label_line(count));
    push_line(&mut lines, "          Periodo".to_owned());
    push_line(&mut lines, String::new());
    push_line(&mut lines, "Legenda:".to_owned());
    push_line(&mut lines, "  o = Valor Real".to_owned());
    push_line(&mut lines, "  x = Valor Previsto".to_owned());
    push_line(&mut lines, "  ● = Real e Previsto (sobrepostos)".to_owned());
    assert(lines.deep_view() =~= chart_lines(title@, bands@));
    lines
}

} // verus!
