//! The text of the table: header titles and one row of cells per snapshot.
//! The shell owns widths, colors and borders; this module fixes exactly
//! what each cell says.

use vstd::prelude::*;
use crate::snapshot::Process;

verus! {

use vstd::string::StringExecFns;

/// The character of one decimal digit.
pub open spec fn digit_char(d: int) -> char {
    if d == 0 {
        '0'
    } else if d == 1 {
        '1'
    } else if d == 2 {
        '2'
    } else if d == 3 {
        '3'
    } else if d == 4 {
        '4'
    } else if d == 5 {
        '5'
    } else if d == 6 {
        '6'
    } else if d == 7 {
        '7'
    } else if d == 8 {
        '8'
    } else {
        '9'
    }
}

/// The decimal numeral of `n`, most significant digit first, without
/// leading zeros; the numeral of 0 is "0".
pub open spec fn decimal_digits(n: nat) -> Seq<char>
    decreases n,
{
    if n < 10 {
        seq![digit_char(n as int)]
    } else {
        decimal_digits(n / 10).push(digit_char((n % 10) as int))
    }
}

/// The text of the command cell: the reported command token, or "N/A"
/// when the operating system reported none.
pub open spec fn command_text(command: Option<String>) -> Seq<char> {
    match command {
        Some(c) => c@,
        None => "N/A"@,
    }
}

fn digit_str(d: u64) -> (r: &'static str)
    requires
        d < 10,
    ensures
        r@ == seq![digit_char(d as int)],
{
    let r: &'static str = match d {
        0 => "0",
        1 => "1",
        2 => "2",
        3 => "3",
        4 => "4",
        5 => "5",
        6 => "6",
        7 => "7",
        8 => "8",
        _ => "9",
    };
    proof {
        reveal_strlit("0");
        reveal_strlit("1");
        reveal_strlit("2");
        reveal_strlit("3");
        reveal_strlit("4");
        reveal_strlit("5");
        reveal_strlit("6");
        reveal_strlit("7");
        reveal_strlit("8");
        reveal_strlit("9");
        assert(r@ =~= seq![digit_char(d as int)]);
    }
    r
}

/// Formats `n` as its decimal numeral.
pub fn decimal_string(n: u64) -> (r: String)
    ensures
        r@ == decimal_digits(n as nat),
    decreases n,
{
    if n < 10 {
        digit_str(n).to_owned()
    } else {
        let mut r = decimal_string(n / 10);
        r.append(digit_str(n % 10));
        proof {
            assert(r@ =~= decimal_digits(n as nat));
        }
        r
    }
}

/// The text of the four cells of one table row: the PID in decimal, the
/// process name, the command token or "N/A", and the runtime in decimal.
pub fn row_cells(p: &Process) -> (r: Vec<String>)
    ensures
        r@.len() == 4,
        r@[0]@ == decimal_digits(p.pid as nat),
        r@[1]@ == p.name@,
        r@[2]@ == command_text(p.command),
        r@[3]@ == decimal_digits(p.runtime as nat),
{
    let mut cells: Vec<String> = Vec::new();
    cells.push(decimal_string(p.pid as u64));
    cells.push(p.name.clone());
    let command: String = match &p.command {
        Some(c) => c.clone(),
        None => "N/A".to_owned(),
    };
    cells.push(command);
    cells.push(decimal_string(p.runtime));
    cells
}

/// The four header titles of the table, in column order.
pub fn header_titles() -> (r: Vec<String>)
    ensures
        r@.len() == 4,
        r@[0]@ == "PID"@,
        r@[1]@ == "Name"@,
        r@[2]@ == "Command"@,
        r@[3]@ == "Run Time"@,
{
    let mut titles: Vec<String> = Vec::new();
    titles.push("PID".to_owned());
    titles.push("Name".to_owned());
    titles.push("Command".to_owned());
    titles.push("Run Time".to_owned());
    titles
}

} // verus!
