//! What the command line prints: the mapping table and the report of a
//! finished command.
use vstd::prelude::*;
use crate::storage::FileMapping;
use crate::text::{
    can_truncate,
    pad_right,
    pad_right_spec,
    push_all,
    signed_decimal,
    signed_decimal_string,
    truncatable,
    truncate,
    truncated,
};

verus! {

/// Width of the id column.
pub const ID_WIDTH: usize = 6;

/// Width of the two path columns.
pub const PATH_WIDTH: usize = 40;

/// Width of the time column.
pub const TIME_WIDTH: usize = 20;

/// Length of the rule under the header.
pub const RULE_LENGTH: usize = 106;

/// `count` dashes.
pub open spec fn dashes(count: nat) -> Seq<char> {
    Seq::new(count, |i: int| '-')
}

/// Four cells, each padded to its column, separated by single spaces.
pub open spec fn table_line(
    id: Seq<char>,
    virtual_path: Seq<char>,
    template_path: Seq<char>,
    time: Seq<char>,
) -> Seq<char> {
    pad_right_spec(id, ID_WIDTH as nat) + seq![' '] + pad_right_spec(virtual_path, PATH_WIDTH as nat)
        + seq![' '] + pad_right_spec(template_path, PATH_WIDTH as nat) + seq![' ']
        + pad_right_spec(time, TIME_WIDTH as nat)
}

/// The header of the mapping table.
pub open spec fn table_header() -> Seq<char> {
    table_line("ID"@, "Virtual Path"@, "Template Path"@, "Updated"@)
}

/// One mapping as a table row; long cells are shortened.
pub open spec fn mapping_row(m: FileMapping) -> Seq<char> {
    table_line(
        signed_decimal(m.id as int),
        truncated(m.virtual_path@, PATH_WIDTH as nat),
        truncated(m.template_path@, PATH_WIDTH as nat),
        truncated(m.updated_at@, TIME_WIDTH as nat),
    )
}

/// Can every cell of the row be shortened without cutting a character?
pub open spec fn printable(m: FileMapping) -> bool {
    &&& truncatable(m.virtual_path@, PATH_WIDTH as nat)
    &&& truncatable(m.template_path@, PATH_WIDTH as nat)
    &&& truncatable(m.updated_at@, TIME_WIDTH as nat)
}

/// The lines that list `mappings`: a note where there are none, else a
/// header, a rule and one row per mapping, in order.
pub open spec fn mapping_table(mappings: Seq<FileMapping>) -> Seq<Seq<char>> {
    if mappings.len() == 0 {
        seq!["No mappings found."@]
    } else {
        seq![table_header(), dashes(RULE_LENGTH as nat)] + Seq::new(
            mappings.len(),
            |i: int| mapping_row(mappings[i]),
        )
    }
}

/// The text of each line.
pub open spec fn texts(lines: Seq<String>) -> Seq<Seq<char>> {
    lines.map_values(|l: String| l@)
}

/// Four cells, each padded to its column, separated by single spaces.
fn line_of(id: &str, virtual_path: &str, template_path: &str, time: &str) -> (line: String)
    ensures
        line@ == table_line(id@, virtual_path@, template_path@, time@),
{
    let mut line = pad_right(id, ID_WIDTH);
    push_all(&mut line, " ");
    push_all(&mut line, pad_right(virtual_path, PATH_WIDTH).as_str());
    push_all(&mut line, " ");
    push_all(&mut line, pad_right(template_path, PATH_WIDTH).as_str());
    push_all(&mut line, " ");
    push_all(&mut line, pad_right(time, TIME_WIDTH).as_str());
    proof {
        reveal_strlit(" ");
    }
    assert(line@ =~= table_line(id@, virtual_path@, template_path@, time@));
    line
}

/// Can this mapping be printed as a row?
pub fn row_printable(m: &FileMapping) -> (ok: bool)
    ensures
        ok == printable(*m),
{
    can_truncate(m.virtual_path.as_str(), PATH_WIDTH) && can_truncate(
        m.template_path.as_str(),
        PATH_WIDTH,
    ) && can_truncate(m.updated_at.as_str(), TIME_WIDTH)
}

/// One mapping as a table row.
pub fn mapping_row_line(m: &FileMapping) -> (line: String)
    requires
        printable(*m),
    ensures
        line@ == mapping_row(*m),
{
    let id = signed_decimal_string(m.id);
    let virtual_path = truncate(m.virtual_path.as_str(), PATH_WIDTH);
    let template_path = truncate(m.template_path.as_str(), PATH_WIDTH);
    let time = truncate(m.updated_at.as_str(), TIME_WIDTH);
    line_of(id.as_str(), virtual_path.as_str(), template_path.as_str(), time.as_str())
}

/// Can every mapping be printed as a row?
pub fn all_printable(mappings: &Vec<FileMapping>) -> (ok: bool)
    ensures
        ok == forall|i: int| 0 <= i < mappings@.len() ==> printable(#[trigger] mappings@[i]),
{
    let mut i: usize = 0;
    while i < mappings.len()
        invariant
            i <= mappings@.len(),
            forall|k: int| 0 <= k < i ==> printable(#[trigger] mappings@[k]),
        decreases mappings.len() - i,
    {
        if !row_printable(&mappings[i]) {
            return false;
        }
        i += 1;
    }
    true
}

/// The header of the mapping table and the rule under it.
pub fn table_head() -> (lines: Vec<String>)
    ensures
        texts(lines@) == seq![table_header(), dashes(RULE_LENGTH as nat)],
{
    let mut lines: Vec<String> = Vec::new();
    lines.push(line_of("ID", "Virtual Path", "Template Path", "Updated"));
    let mut rule = String::new();
    let mut k: usize = 0;
    while k < RULE_LENGTH
        invariant
            k <= RULE_LENGTH,
            rule@ == dashes(k as nat),
        decreases RULE_LENGTH - k,
    {
        rule.push('-');
        assert(dashes((k + 1) as nat) =~= dashes(k as nat).push('-'));
        k += 1;
    }
    lines.push(rule);
    assert(texts(lines@) =~= seq![table_header(), dashes(RULE_LENGTH as nat)]);
    lines
}

/// The lines that list `mappings`, as the `list` command prints them.
pub fn print_mappings(mappings: &Vec<FileMapping>) -> (lines: Vec<String>)
    requires
        forall|i: int| 0 <= i < mappings@.len() ==> printable(#[trigger] mappings@[i]),
    ensures
        texts(lines@) == mapping_table(mappings@),
{
    let mut lines: Vec<String> = Vec::new();
    if mappings.len() == 0 {
        lines.push("No mappings found.".to_owned());
        assert(texts(lines@) =~= mapping_table(mappings@));
        return lines;
    }
    lines = table_head();
    let mut i: usize = 0;
    while i < mappings.len()
        invariant
            i <= mappings@.len(),
            mappings@.len() > 0,
            forall|j: int| 0 <= j < mappings@.len() ==> printable(#[trigger] mappings@[j]),
            texts(lines@) =~= seq![table_header(), dashes(RULE_LENGTH as nat)] + Seq::new(
                i as nat,
                |j: int| mapping_row(mappings@[j]),
            ),
        decreases mappings.len() - i,
    {
        let line = mapping_row_line(&mappings[i]);
        let ghost before = lines@;
        lines.push(line);
        assert(texts(lines@) =~= texts(before).push(mapping_row(mappings@[i as int])));
        i += 1;
    }
    lines
}

/// What a finished command has to tell.
#[derive(Debug)]
pub enum Report {
    /// The filesystem was mounted, served and unmounted.
    Stopped,
    /// This mapping was added.
    Added(FileMapping),
    /// The mapping of this virtual path was removed.
    Removed(String),
    /// This mapping was updated.
    Updated(FileMapping),
    /// These are all the mappings.
    Listed(Vec<FileMapping>),
}

/// The lines a finished command prints.
pub open spec fn report_text(report: Report) -> Seq<Seq<char>> {
    match report {
        Report::Stopped => Seq::empty(),
        Report::Added(m) => seq!["Added mapping: "@ + m.virtual_path@ + " -> "@ + m.template_path@],
        Report::Removed(p) => seq!["Removed mapping: "@ + p@],
        Report::Updated(m) => seq![
            "Updated mapping: "@ + m.virtual_path@ + " -> "@ + m.template_path@,
        ],
        Report::Listed(ms) => mapping_table(ms@),
    }
}

/// Can the report be printed? Only a listing with a cell that cannot be
/// shortened cannot.
pub open spec fn report_printable(report: Report) -> bool {
    report matches Report::Listed(ms) ==> forall|i: int|
        0 <= i < ms@.len() ==> printable(#[trigger] ms@[i])
}

/// Can the report be printed?
pub fn can_print(report: &Report) -> (ok: bool)
    ensures
        ok == report_printable(*report),
{
    match report {
        Report::Listed(ms) => all_printable(ms),
        _ => true,
    }
}

/// "`what` mapping: `from` -> `to`".
fn arrow_line(what: &str, from: &String, to: &String) -> (line: String)
    ensures
        line@ == what@ + from@ + " -> "@ + to@,
{
    let mut line = what.to_owned();
    push_all(&mut line, from.as_str());
    push_all(&mut line, " -> ");
    push_all(&mut line, to.as_str());
    line
}

/// The lines a finished command prints.
pub fn report_lines(report: &Report) -> (lines: Vec<String>)
    requires
        report_printable(*report),
    ensures
        texts(lines@) == report_text(*report),
{
    let mut lines: Vec<String> = Vec::new();
    match report {
        Report::Stopped => {
            assert(texts(lines@) =~= report_text(*report));
        },
        Report::Added(m) => {
            lines.push(arrow_line("Added mapping: ", &m.virtual_path, &m.template_path));
            assert(texts(lines@) =~= report_text(*report));
        },
        Report::Removed(p) => {
            let mut line = "Removed mapping: ".to_owned();
            push_all(&mut line, p.as_str());
            lines.push(line);
            assert(texts(lines@) =~= report_text(*report));
        },
        Report::Updated(m) => {
            lines.push(arrow_line("Updated mapping: ", &m.virtual_path, &m.template_path));
            assert(texts(lines@) =~= report_text(*report));
        },
        Report::Listed(ms) => {
            lines = print_mappings(ms);
        },
    }
    lines
}

} // verus!
