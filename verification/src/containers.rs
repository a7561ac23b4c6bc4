//! Container inspection: turning the machine-readable, line-delimited
//! output of the remote orchestration status query into structured
//! container states. Parsing is tolerant: a line that is not well-formed
//! JSON, or lacks the required fields, is skipped; the well-formed lines
//! are kept in encounter order.

use vstd::prelude::*;

verus! {

/// State of one container as reported by the remote orchestrator.
pub struct ContainerStatus {
    pub name: String,
    pub status: String,
    pub state: String,
}

impl View for ContainerStatus {
    type V = (Seq<char>, Seq<char>, Seq<char>);

    open spec fn view(&self) -> (Seq<char>, Seq<char>, Seq<char>) {
        (self.name@, self.status@, self.state@)
    }
}

/// The views of a sequence of container statuses.
pub open spec fn statuses_view(cs: Seq<ContainerStatus>) -> Seq<(Seq<char>, Seq<char>, Seq<char>)> {
    cs.map_values(|c: ContainerStatus| c@)
}

/// The record a status line parses to, if any: its `Name`, `Status` and
/// `State` fields, read when the line is a JSON object that carries all
/// three as strings.
pub uninterp spec fn record_of_line(line: Seq<char>) -> Option<(Seq<char>, Seq<char>, Seq<char>)>;

/// The lines of a string, split at line endings.
pub uninterp spec fn lines_of(s: Seq<char>) -> Seq<Seq<char>>;

/// Relies on serde_json::from_str and serde_json::Value's get and as_str:
/// a line yields a record exactly when it parses as JSON carrying string
/// fields "Name", "Status" and "State"; the result depends on the
/// characters of the line alone.
#[verifier::external_body]
fn parse_status_line(line: &str) -> (r: Option<ContainerStatus>)
    ensures
        (match r {
            Some(c) => Some(c@),
            None => None,
        }) == record_of_line(line@),
{
    let v: serde_json::Value = serde_json::from_str(line).ok()?;
    let name = v.get("Name").and_then(|x| x.as_str())?.to_string();
    let status = v.get("Status").and_then(|x| x.as_str())?.to_string();
    let state = v.get("State").and_then(|x| x.as_str())?.to_string();
    Some(ContainerStatus { name, status, state })
}

/// Relies on str::lines: splits at line endings; the result depends on
/// the characters of the input alone, and an empty input has no lines.
#[verifier::external_body]
fn split_lines(s: &str) -> (r: Vec<String>)
    ensures
        r@.map_values(|l: String| l@) == lines_of(s@),
        s@.len() == 0 ==> r@.len() == 0,
{
    s.lines().map(|l| l.to_string()).collect()
}

/// The records of the well-formed lines, in encounter order; lines that
/// parse to no record contribute nothing.
pub open spec fn parsed_of(lines: Seq<Seq<char>>) -> Seq<(Seq<char>, Seq<char>, Seq<char>)>
    decreases lines.len(),
{
    if lines.len() == 0 {
        Seq::empty()
    } else {
        let rest = parsed_of(lines.drop_first());
        match record_of_line(lines.first()) {
            Some(r) => seq![r] + rest,
            None => rest,
        }
    }
}

/// Parse the output of the remote orchestration status query: one JSON
/// document per line, each read independently; malformed lines are
/// skipped, well-formed ones are returned in encounter order.
pub fn parse_container_list(output: &str) -> (r: Vec<ContainerStatus>)
    ensures
        statuses_view(r@) == parsed_of(lines_of(output@)),
{
    let lines = split_lines(output);
    let n = lines.len();
    let ghost line_views = lines@.map_values(|l: String| l@);
    let mut r: Vec<ContainerStatus> = Vec::new();
    let mut i: usize = 0;
    proof {
        assert(line_views.skip(0) =~= line_views);
        assert(statuses_view(r@) =~= Seq::<(Seq<char>, Seq<char>, Seq<char>)>::empty());
        assert(statuses_view(r@) + parsed_of(line_views) =~= parsed_of(line_views));
    }
    while i < n
        invariant
            n == lines@.len(),
            i <= n,
            line_views == lines@.map_values(|l: String| l@),
            statuses_view(r@) + parsed_of(line_views.skip(i as int)) == parsed_of(line_views),
        decreases n - i,
    {
        let ghost pre = statuses_view(r@);
        let ghost tail = line_views.skip(i as int);
        proof {
            assert(tail.len() > 0);
            assert(tail.first() == line_views[i as int]);
            assert(tail.drop_first() =~= line_views.skip(i as int + 1));
        }
        match parse_status_line(&lines[i]) {
            Some(c) => {
                r.push(c);
                proof {
                    assert(statuses_view(r@) =~= pre.push(c@));
                    assert(record_of_line(tail.first()) == Some(c@));
                    assert(parsed_of(tail) == seq![c@] + parsed_of(tail.drop_first()));
                    assert(statuses_view(r@) + parsed_of(line_views.skip(i as int + 1)) =~= pre
                        + parsed_of(tail));
                }
            },
            None => {
                proof {
                    assert(parsed_of(tail) == parsed_of(tail.drop_first()));
                }
            },
        }
        i += 1;
    }
    proof {
        assert(line_views.skip(n as int) =~= Seq::<Seq<char>>::empty());
        assert(statuses_view(r@) + parsed_of(line_views.skip(n as int)) =~= statuses_view(r@));
    }
    r
}

/// True when some reported container carries the service's name with the
/// normalized state "running".
pub open spec fn service_running(
    cs: Seq<(Seq<char>, Seq<char>, Seq<char>)>,
    service: Seq<char>,
) -> bool {
    exists|i: int| 0 <= i < cs.len() && cs[i].0 == service && cs[i].2 == "running"@
}

/// Whether a container named `service` is present with normalized state
/// "running" in an inspection result.
pub fn is_service_running(containers: &Vec<ContainerStatus>, service: &str) -> (b: bool)
    ensures
        b == service_running(statuses_view(containers@), service@),
{
    let needle = String::from_str(service);
    let running = String::from_str("running");
    let n = containers.len();
    let mut i: usize = 0;
    while i < n
        invariant
            n == containers@.len(),
            i <= n,
            needle@ == service@,
            running@ == "running"@,
            forall|j: int|
                0 <= j < i ==> !(#[trigger] statuses_view(containers@)[j].0 == service@
                    && statuses_view(containers@)[j].2 == "running"@),
        decreases n - i,
    {
        if containers[i].name == needle && containers[i].state == running {
            proof {
                assert(statuses_view(containers@)[i as int] == containers@[i as int]@);
            }
            return true;
        }
        proof {
            assert(statuses_view(containers@)[i as int] == containers@[i as int]@);
        }
        i += 1;
    }
    false
}

/// Malformed lines do not abort or distort status reporting: removing a
/// line that parses to no record leaves the parsed records unchanged, so
/// only the well-formed lines show up, in encounter order.
pub proof fn lemma_malformed_line_skipped(lines: Seq<Seq<char>>, i: int)
    requires
        0 <= i < lines.len(),
        record_of_line(lines[i]) is None,
    ensures
        parsed_of(lines) == parsed_of(lines.remove(i)),
    decreases lines.len(),
{
    if i == 0 {
        assert(lines.remove(0) =~= lines.drop_first());
    } else {
        lemma_malformed_line_skipped(lines.drop_first(), i - 1);
        assert(lines.remove(i).first() == lines.first());
        assert(lines.remove(i).drop_first() =~= lines.drop_first().remove(i - 1));
        assert(lines.remove(i).len() > 0);
    }
}

} // verus!
