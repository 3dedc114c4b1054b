//! The daily figures of a result, laid out for a CSV file and for a chart.
//!
//! Rows start at day 1: row `d` holds the figures that day `d` started
//! with, which is what entry `d` of a history records.

use vstd::prelude::*;
use crate::engine::is_run;
use crate::laws::lemma_run_spans_total_days;
use crate::calendar::total_days_of;
use crate::number::text_yields;
use crate::number::times_yields;
use crate::number::Number;
use crate::pool::StakedCardanoPool;
use crate::result::StakedCardanoPoolResult;
use crate::text::decimal;
use crate::text::decimal_text;

verus! {

/// The figures of one day.
#[derive(Clone, Copy, Debug)]
pub struct DayRecord<T> {
    /// The day, counted from day 0.
    pub day: u64,
    /// ADA held.
    pub ada: T,
    /// Price of one ADA.
    pub price: T,
    /// Value of the position: amount times price.
    pub total: T,
}

/// The first line of every CSV export.
pub open spec fn csv_header() -> Seq<char> {
    "Day,ADA,Price,Total\n"@
}

/// `record` holds entry `day` of the history of `result`.
pub open spec fn is_record_of<T: Number>(
    result: StakedCardanoPoolResult<T>,
    day: int,
    record: DayRecord<T>,
) -> bool {
    &&& record.day == day
    &&& record.ada == result.amount_historical@[day]
    &&& record.price == result.price_historical@[day]
    &&& times_yields(record.ada, record.price, record.total)
}

/// `rows` are the rows of `result`: one for every day of its history but
/// day 0, in order.
pub open spec fn are_rows_of<T: Number>(
    result: StakedCardanoPoolResult<T>,
    rows: Seq<DayRecord<T>>,
) -> bool {
    &&& rows.len() == (if result.history_days() == 0 {
        0
    } else {
        result.history_days() - 1
    })
    &&& forall|i: int| 0 <= i < rows.len() ==> is_record_of(result, i + 1, #[trigger] rows[i])
}

/// `line` is the CSV line of `row`: day, amount, price and total,
/// separated by commas and closed by a line feed.
pub open spec fn is_line_of<T: Number>(row: DayRecord<T>, line: Seq<char>) -> bool {
    exists|ada: String, price: String, total: String|
        #![trigger text_yields(row.ada, ada), text_yields(row.price, price), text_yields(row.total, total)]
        text_yields(row.ada, ada) && text_yields(row.price, price) && text_yields(row.total, total)
            && line == decimal_text(row.day as nat) + ","@ + ada@ + ","@ + price@ + ","@ + total@
            + "\n"@
}

/// The lines one after another.
pub open spec fn joined(lines: Seq<Seq<char>>) -> Seq<char>
    decreases lines.len(),
{
    if lines.len() == 0 {
        Seq::empty()
    } else {
        joined(lines.drop_last()) + lines.last()
    }
}

/// `text` is the CSV document of `rows`: the header, then the line of
/// every row in order.
pub open spec fn is_csv_of<T: Number>(rows: Seq<DayRecord<T>>, text: Seq<char>) -> bool {
    exists|lines: Seq<Seq<char>>|
        #![trigger joined(lines)]
        lines.len() == rows.len() && (forall|i: int|
            0 <= i < rows.len() ==> is_line_of(rows[i], #[trigger] lines[i])) && text
            == csv_header() + joined(lines)
}

/// The rows of `result` for a CSV file or a chart. A result without
/// history has none.
pub fn history_rows<T: Number>(result: &StakedCardanoPoolResult<T>) -> (rows: Vec<DayRecord<T>>)
    ensures
        are_rows_of(*result, rows@),
{
    let mut rows: Vec<DayRecord<T>> = Vec::new();
    let days: usize = result.history_len();
    if days == 0 {
        return rows;
    }
    let mut day: usize = 1;
    while day < days
        invariant
            days == result.history_days(),
            1 <= day <= days,
            rows@.len() == day - 1,
            forall|i: int| 0 <= i < rows@.len() ==> is_record_of(*result, i + 1, #[trigger] rows@[i]),
        decreases days - day,
    {
        let ada = result.amount_historical[day];
        let price = result.price_historical[day];
        rows.push(DayRecord { day: day as u64, ada, price, total: ada.times(price) });
        day += 1;
    }
    rows
}

/// The CSV line of `row`.
pub fn csv_line<T: Number>(row: &DayRecord<T>) -> (line: String)
    ensures
        is_line_of(*row, line@),
{
    let ada = row.ada.to_text();
    let price = row.price.to_text();
    let total = row.total.to_text();
    let mut line = decimal(row.day as u128);
    line.append(",");
    line.append(ada.as_str());
    line.append(",");
    line.append(price.as_str());
    line.append(",");
    line.append(total.as_str());
    line.append("\n");
    assert(text_yields(row.ada, ada) && text_yields(row.price, price) && text_yields(
        row.total,
        total,
    ));
    line
}

/// The CSV document of `rows`.
pub fn csv_document<T: Number>(rows: &Vec<DayRecord<T>>) -> (text: String)
    ensures
        is_csv_of(rows@, text@),
{
    let mut text = String::from_str("Day,ADA,Price,Total\n");
    let ghost mut lines: Seq<Seq<char>> = Seq::empty();
    let mut i: usize = 0;
    while i < rows.len()
        invariant
            i <= rows.len(),
            lines.len() == i,
            forall|k: int| 0 <= k < i ==> is_line_of(rows@[k], #[trigger] lines[k]),
            text@ == csv_header() + joined(lines),
        decreases rows.len() - i,
    {
        let line = csv_line(&rows[i]);
        text.append(line.as_str());
        proof {
            let longer = lines.push(line@);
            assert(longer.drop_last() =~= lines);
            assert(text@ =~= csv_header() + joined(longer));
            lines = longer;
        }
        i += 1;
    }
    text
}

/// The name of the CSV file written at `epoch_ms` milliseconds of Unix
/// time.
pub fn csv_file_name(epoch_ms: u128) -> (name: String)
    ensures
        name@ == "raw_ada_calc_data_"@ + decimal_text(epoch_ms as nat) + ".csv"@,
{
    let mut name = String::from_str("raw_ada_calc_data_");
    name.append(decimal(epoch_ms).as_str());
    name.append(".csv");
    name
}

/// The name of the chart file written at `epoch_ms` milliseconds of Unix
/// time.
pub fn graph_file_name(epoch_ms: u128) -> (name: String)
    ensures
        name@ == "ada_growth_graph_"@ + decimal_text(epoch_ms as nat) + ".svg"@,
{
    let mut name = String::from_str("ada_growth_graph_");
    name.append(decimal(epoch_ms).as_str());
    name.append(".svg");
    name
}

/// A CSV document opens with the header.
pub proof fn lemma_csv_opens_with_header<T: Number>(rows: Seq<DayRecord<T>>, text: Seq<char>)
    requires
        is_csv_of(rows, text),
    ensures
        text.len() >= csv_header().len(),
        text.subrange(0, csv_header().len() as int) == csv_header(),
{
    let lines = choose|lines: Seq<Seq<char>>|
        #![trigger joined(lines)]
        lines.len() == rows.len() && (forall|i: int|
            0 <= i < rows.len() ==> is_line_of(rows[i], #[trigger] lines[i])) && text
            == csv_header() + joined(lines);
    assert(text.subrange(0, csv_header().len() as int) =~= csv_header());
}

/// The export of a run with history has one row for every simulated day
/// but day 0.
pub proof fn lemma_rows_cover_run<T: Number>(
    pool: StakedCardanoPool<T>,
    result: StakedCardanoPoolResult<T>,
    rows: Seq<DayRecord<T>>,
)
    requires
        is_run(pool, true, result),
        are_rows_of(result, rows),
    ensures
        rows.len() == total_days_of(pool.years_holding as nat) - 1,
        forall|i: int| 0 <= i < rows.len() ==> (#[trigger] rows[i]).day == i + 1,
{
    lemma_run_spans_total_days(pool, true, result);
}

} // verus!
