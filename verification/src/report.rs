//! Report lines: both monitors emit human-readable reports built from
//! labeled optional fields. A present field contributes one `label + value`
//! line; an absent field contributes nothing and is never an error.

use vstd::prelude::*;

verus! {

/// The report lines contributed by one optional field: one labeled line when
/// the field is present, none when it is absent.
pub open spec fn opt_lines(label: Seq<char>, v: Option<Seq<char>>) -> Seq<Seq<char>> {
    match v {
        Option::Some(s) => seq![label + s],
        Option::None => Seq::<Seq<char>>::empty(),
    }
}

/// Appends the lines of one labeled optional field to a report.
pub fn push_labeled(lines: &mut Vec<String>, label: &str, value: &Option<String>)
    ensures
        final(lines).deep_view() == old(lines).deep_view() + opt_lines(label@, value.deep_view()),
{
    let ghost prev = lines.deep_view();
    match value {
        Option::Some(s) => {
            let mut line = String::from_str(label);
            line.append(s.as_str());
            lines.push(line);
            proof {
                assert(lines.deep_view() =~= prev + opt_lines(label@, value.deep_view()));
            }
        },
        Option::None => {
            proof {
                assert(lines.deep_view() =~= prev + opt_lines(label@, value.deep_view()));
            }
        },
    }
}

/// Appends one fixed line to a report.
pub fn push_line(lines: &mut Vec<String>, line: &str)
    ensures
        final(lines).deep_view() == old(lines).deep_view() + seq![line@],
{
    let ghost prev = lines.deep_view();
    lines.push(String::from_str(line));
    proof {
        assert(lines.deep_view() =~= prev + seq![line@]);
    }
}

} // verus!
