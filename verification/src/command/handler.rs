//! What the daemon does for each command, and the text that it answers
//! with.

use crate::command::Command;
use crate::remote::{RemoteFileDescriptor, RemoteFileDescriptorView};
use crate::text::{decimal, replace, replaced, to_decimal};
use vstd::prelude::*;
use vstd::string::StringExecFns;

verus! {

/// The text of a table without borders, as the crate `prettytable` prints
/// it: one line for each row, the cells of a column under one another.
/// This crate names the text and does not define it.
pub uninterp spec fn clean_table_text(rows: Seq<Seq<Seq<char>>>) -> Seq<char>;

/// The character that starts a terminal's escape sequences.
pub open spec fn escape() -> char {
    '\u{1b}'
}

/// Whether no cell of `rows` holds the escape character.
pub open spec fn printable_rows(rows: Seq<Seq<Seq<char>>>) -> bool {
    forall|i: int, j: int|
        0 <= i < rows.len() && 0 <= j < rows[i].len() ==> !(#[trigger] rows[i][j]).contains(
            escape(),
        )
}

/// `prettytable`'s `Table::to_string`, for a table in the format
/// `FORMAT_CLEAN` that holds `rows`, each cell made by `Cell::new`: the
/// result is the text that this crate names `clean_table_text`. It is not
/// empty where there is a row: each row is printed as at least one line,
/// which ends in a newline. Cells with
/// the escape character are kept out: `prettytable` takes what follows it
/// for a terminal's colour code, and panics where its count of hidden
/// characters exceeds the cell's width.
#[verifier::external_body]
fn render_clean_table(rows: &Vec<Vec<String>>) -> (text: String)
    requires
        printable_rows(rows.deep_view()),
    ensures
        text@ == clean_table_text(rows.deep_view()),
        rows.len() > 0 ==> text@.len() > 0,
{
    let mut table = prettytable::Table::new();
    table.set_format(*prettytable::format::consts::FORMAT_CLEAN);
    for row in rows.iter() {
        let mut cells = Vec::new();
        for cell in row.iter() {
            cells.push(prettytable::Cell::new(cell));
        }
        table.add_row(prettytable::Row::new(cells));
    }
    table.to_string()
}

/// `s` with `?` in place of every escape character.
pub open spec fn printable(s: Seq<char>) -> Seq<char> {
    replaced(s, seq![escape()], seq!['?'])
}

/// `printable` leaves no escape character.
pub proof fn lemma_printable(s: Seq<char>)
    ensures
        !printable(s).contains(escape()),
    decreases s.len(),
{
    let from = seq![escape()];
    let to = seq!['?'];
    let result = printable(s);
    if s.len() == 0 {
        assert(result =~= s);
    } else {
        let rest = printable(s.drop_first());
        lemma_printable(s.drop_first());
        assert(s.skip(1) =~= s.drop_first());
        if from.is_prefix_of(s) {
            assert(s[0] == from[0]);
            assert(result == to + rest);
        } else {
            if s[0] == escape() {
                assert(from =~= s.subrange(0, 1));
            }
            assert(result == seq![s[0]] + rest);
        }
        if result.contains(escape()) {
            let i = choose|i: int| 0 <= i < result.len() && result[i] == escape();
            if i > 0 {
                assert(rest[i - 1] == escape());
            }
        }
    }
}

/// The titles of the columns of the list of files.
pub open spec fn titles() -> Seq<Seq<char>> {
    seq!["FILENAME"@, "PATH"@, "VERSION"@, "SYNCED"@]
}

/// The version shown for a file that has none.
pub const DEFAULT_VERSION: u64 = 1;

/// How a truth value is shown.
pub open spec fn shown(b: bool) -> Seq<char> {
    if b {
        "true"@
    } else {
        "false"@
    }
}

/// The row of the list for `file`, which is there locally or not.
pub open spec fn row_of(file: RemoteFileDescriptorView, synced: bool) -> Seq<Seq<char>> {
    seq![
        printable(file.base_name),
        printable(file.path),
        decimal(
            match file.version {
                Some(v) => v,
                None => DEFAULT_VERSION,
            } as nat,
        ),
        shown(synced),
    ]
}

/// Whether the file at place `i` is there locally: what `present` says,
/// and no where it says nothing.
pub open spec fn synced_at(present: Seq<bool>, i: int) -> bool {
    0 <= i < present.len() && present[i]
}

/// The rows of the list of `files`: the titles, then one row for each file
/// in the order given.
pub open spec fn listing(files: Seq<RemoteFileDescriptorView>, present: Seq<bool>) -> Seq<
    Seq<Seq<char>>,
> {
    Seq::new(
        files.len() + 1,
        |i: int|
            if i == 0 {
                titles()
            } else {
                row_of(files[i - 1], synced_at(present, i - 1))
            },
    )
}

/// What the daemon answers to text that names no command.
pub open spec fn not_found() -> Seq<char> {
    "command not found"@
}

/// What the daemon answers where the files cannot be had, for `cause`.
pub open spec fn unavailable(cause: Seq<char>) -> Seq<char> {
    "failed to list files: "@ + cause
}

/// What a command asks of the daemon.
#[derive(Debug, Clone, PartialEq, Eq)]
pub enum Execution {
    /// Fetch the files from the remote service, and say of each whether a
    /// file is at its path.
    FetchFiles,
    /// Answer with this text.
    Reply(String),
}

pub enum ExecutionView {
    FetchFiles,
    Reply(Seq<char>),
}

impl View for Execution {
    type V = ExecutionView;

    open spec fn view(&self) -> ExecutionView {
        match self {
            Execution::FetchFiles => ExecutionView::FetchFiles,
            Execution::Reply(text) => ExecutionView::Reply(text@),
        }
    }
}

/// Handles the commands that come from the command line.
#[derive(Debug, Clone, Copy, PartialEq, Eq)]
pub struct CommandHandler {}

impl CommandHandler {
    /// The handler. It holds nothing: the files are handed to it.
    pub fn new() -> (r: Self) {
        CommandHandler {}
    }

    /// What `command` asks for: the files for `ListFiles`, for anything
    /// else the answer that there is no such command.
    pub fn execute(&self, command: Command) -> (r: Execution)
        ensures
            r@ == match command {
                Command::ListFiles => ExecutionView::FetchFiles,
                Command::Unknown => ExecutionView::Reply(not_found()),
            },
            r matches Execution::Reply(text) ==> text@.len() > 0,
    {
        proof {
            reveal_strlit("command not found");
        }
        match command {
            Command::ListFiles => Execution::FetchFiles,
            Command::Unknown => Execution::Reply(String::from_str("command not found")),
        }
    }

    /// The rows of the list of `files`. `present` says for each file, by
    /// its place, whether it is there locally.
    pub fn rows(&self, files: &Vec<RemoteFileDescriptor>, present: &Vec<bool>) -> (r: Vec<
        Vec<String>,
    >)
        ensures
            r.deep_view() == listing(files.deep_view(), present@),
            printable_rows(r.deep_view()),
    {
        let mut rows: Vec<Vec<String>> = Vec::new();
        let mut head: Vec<String> = Vec::new();
        head.push(String::from_str("FILENAME"));
        head.push(String::from_str("PATH"));
        head.push(String::from_str("VERSION"));
        head.push(String::from_str("SYNCED"));
        proof {
            assert(head.deep_view() =~= titles());
            lemma_titles_printable();
        }
        rows.push(head);
        let mut i: usize = 0;
        while i < files.len()
            invariant
                i <= files.len(),
                rows.len() == i + 1,
                rows.deep_view() =~= listing(files.deep_view(), present@).take(i + 1),
                printable_rows(rows.deep_view()),
            decreases files.len() - i,
        {
            let file = &files[i];
            let synced = i < present.len() && present[i];
            let version = match file.version {
                Some(v) => v,
                None => DEFAULT_VERSION,
            };
            let mut row: Vec<String> = Vec::new();
            row.push(replace(file.base_name.as_str(), "\u{1b}", "?"));
            row.push(replace(file.path.as_str(), "\u{1b}", "?"));
            row.push(to_decimal(version));
            row.push(
                if synced {
                    String::from_str("true")
                } else {
                    String::from_str("false")
                },
            );
            proof {
                reveal_strlit("\u{1b}");
                reveal_strlit("?");
                assert("\u{1b}"@ =~= seq![escape()]);
                assert("?"@ =~= seq!['?']);
                let view = files.deep_view()[i as int];
                assert(view == file@);
                assert(row.deep_view() =~= row_of(view, synced_at(present@, i as int)));
                lemma_row_printable(view, synced_at(present@, i as int));
                let before = rows.deep_view();
                let longer = before.push(row.deep_view());
                assert forall|a: int, b: int|
                    0 <= a < longer.len() && 0 <= b < longer[a].len() implies !(
                #[trigger] longer[a][b]).contains(escape()) by {
                    if a < before.len() {
                        assert(longer[a] == before[a]);
                    }
                }
            }
            let ghost before = rows.deep_view();
            rows.push(row);
            proof {
                assert(rows.deep_view() =~= before.push(row.deep_view()));
            }
            i += 1;
        }
        proof {
            let all = listing(files.deep_view(), present@);
            assert(all.take(files.len() + 1) =~= all);
        }
        rows
    }

    /// The list of `files` as a table: a line of titles, then a line for
    /// each file with its name, its path, its version (1 where it has
    /// none) and whether it is there locally. It is never empty: the
    /// titles are always there.
    pub fn list(&self, files: &Vec<RemoteFileDescriptor>, present: &Vec<bool>) -> (r: String)
        ensures
            r@ == clean_table_text(listing(files.deep_view(), present@)),
            r@.len() > 0,
    {
        let rows = self.rows(files, present);
        assert(rows.len() == rows.deep_view().len());
        render_clean_table(&rows)
    }

    /// The answer where the files cannot be had.
    pub fn failure(&self, cause: &str) -> (r: String)
        ensures
            r@ == unavailable(cause@),
            r@.len() > 0,
    {
        let mut text = String::from_str("failed to list files: ");
        text.append(cause);
        proof {
            reveal_strlit("failed to list files: ");
        }
        text
    }
}

/// No title holds the escape character.
pub proof fn lemma_titles_printable()
    ensures
        forall|j: int| 0 <= j < titles().len() ==> !(#[trigger] titles()[j]).contains(escape()),
{
    reveal_strlit("FILENAME");
    reveal_strlit("PATH");
    reveal_strlit("VERSION");
    reveal_strlit("SYNCED");
}

/// No digit is the escape character.
pub proof fn lemma_decimal_printable(n: nat)
    ensures
        !decimal(n).contains(escape()),
    decreases n,
{
    if n >= 10 {
        lemma_decimal_printable(n / 10);
        let d = decimal(n);
        if d.contains(escape()) {
            let i = choose|i: int| 0 <= i < d.len() && d[i] == escape();
            if i < d.len() - 1 {
                assert(decimal(n / 10)[i] == escape());
            }
        }
    }
}

/// No cell of a file's row holds the escape character.
pub proof fn lemma_row_printable(file: RemoteFileDescriptorView, synced: bool)
    ensures
        forall|j: int|
            0 <= j < row_of(file, synced).len() ==> !(#[trigger] row_of(file, synced)[j]).contains(
                escape(),
            ),
{
    lemma_printable(file.base_name);
    lemma_printable(file.path);
    lemma_decimal_printable(
        match file.version {
            Some(v) => v,
            None => DEFAULT_VERSION,
        } as nat,
    );
    reveal_strlit("true");
    reveal_strlit("false");
}

} // verus!
