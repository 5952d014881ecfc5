//! What one task-control run decides and computes: which flag selects
//! which remote mutation, how a command line is read back, and which
//! network call — method and endpoint — follows from it. The run issues
//! exactly one request and exits; the network call itself happens
//! outside.

use vstd::prelude::*;

verus! {

use crate::dashboard::TaskAction;
use crate::numeral::dec_digits;
use crate::numeral::is_decimal_digit;
use crate::numeral::lemma_dec_digits_start;
use crate::numeral::to_decimal;

/// The command-line flag that selects each remote mutation.
pub open spec fn action_flag(a: TaskAction) -> Seq<char> {
    match a {
        TaskAction::Complete => "-complete"@,
        TaskAction::Delete => "-delete"@,
    }
}

/// The flag text handed to a task-control run.
pub fn action_flag_str(a: TaskAction) -> (s: &'static str)
    ensures
        s@ == action_flag(a),
{
    match a {
        TaskAction::Complete => "-complete",
        TaskAction::Delete => "-delete",
    }
}

/// The two arguments of a task-control run: the action flag, then the
/// targeted identifier in decimal.
pub fn task_control_args(a: TaskAction, id: usize) -> (args: Vec<String>)
    ensures
        args@.len() == 2,
        args@[0]@ == action_flag(a),
        args@[1]@ == dec_digits(id as nat),
{
    let mut v: Vec<String> = Vec::new();
    v.push(String::from_str(action_flag_str(a)));
    v.push(to_decimal(id));
    v
}

/// The first position in `a` whose text equals `flag`.
pub open spec fn first_flag_index(a: Seq<String>, flag: Seq<char>) -> Option<int>
    decreases a.len(),
{
    if a.len() == 0 {
        None
    } else if a[0]@ == flag {
        Some(0int)
    } else {
        match first_flag_index(a.skip(1), flag) {
            Some(i) => Some(i + 1),
            None => None,
        }
    }
}

/// How a task-control run reads its command line `a` (program name
/// first): the first `-complete` flag, or else the first `-delete`
/// flag, selects the action, and the entry right after that flag names
/// the identifier. A command line of fewer than three entries, or one
/// whose selecting flag stands last, carries no identifier and is
/// rejected; a present `-complete` takes precedence over `-delete`
/// even then.
pub open spec fn spec_parse_args(a: Seq<String>) -> Option<(TaskAction, Seq<char>)> {
    match first_flag_index(a, "-complete"@) {
        Some(i) => if a.len() > 2 && i + 1 < a.len() {
            Some((TaskAction::Complete, a[i + 1]@))
        } else {
            None
        },
        None => match first_flag_index(a, "-delete"@) {
            Some(i) => if a.len() > 2 && i + 1 < a.len() {
                Some((TaskAction::Delete, a[i + 1]@))
            } else {
                None
            },
            None => None,
        },
    }
}

fn find_flag_from(args: &Vec<String>, flag: &String, start: usize) -> (r: Option<usize>)
    requires
        start <= args@.len(),
    ensures
        (match r {
            Some(i) => start <= i < args@.len() && first_flag_index(
                args@.skip(start as int),
                flag@,
            ) == Some(i - start),
            None => first_flag_index(args@.skip(start as int), flag@) is None,
        }),
    decreases args@.len() - start,
{
    if start >= args.len() {
        proof {
            assert(args@.skip(start as int) =~= Seq::<String>::empty());
        }
        None
    } else if args[start] == *flag {
        proof {
            assert(args@.skip(start as int)[0] == args@[start as int]);
        }
        Some(start)
    } else {
        let r = find_flag_from(args, flag, start + 1);
        proof {
            assert(args@.skip(start as int).skip(1) =~= args@.skip(start as int + 1));
            assert(args@.skip(start as int)[0] == args@[start as int]);
        }
        r
    }
}

/// Read a task-control command line exactly as `spec_parse_args` says,
/// handing back the action and the identifier text, and rejecting a
/// command line that carries no identifier instead of failing.
pub fn parse_task_control_args(args: &Vec<String>) -> (r: Option<(TaskAction, String)>)
    ensures
        (match r {
            Some(p) => spec_parse_args(args@) == Some((p.0, p.1@)),
            None => spec_parse_args(args@) is None,
        }),
{
    proof {
        assert(args@.skip(0) =~= args@);
    }
    let complete_flag = String::from_str("-complete");
    let delete_flag = String::from_str("-delete");
    let len = args.len();
    if let Some(i) = find_flag_from(args, &complete_flag, 0) {
        if len > 2 && i + 1 < len {
            Some((TaskAction::Complete, args[i + 1].clone()))
        } else {
            None
        }
    } else if let Some(i) = find_flag_from(args, &delete_flag, 0) {
        if len > 2 && i + 1 < len {
            Some((TaskAction::Delete, args[i + 1].clone()))
        } else {
            None
        }
    } else {
        None
    }
}

/// The request shape of each remote mutation.
#[derive(Copy, Clone, PartialEq, Eq, Structural, Debug)]
pub enum HttpMethod {
    Post,
    Delete,
}

/// The one network call a task-control run makes for an identifier
/// rendered as `id_text`: completing goes by POST to
/// `<tasks endpoint><id>/complete`, deleting by DELETE to
/// `<tasks endpoint><id>`.
pub open spec fn task_endpoint(a: TaskAction, id_text: Seq<char>) -> Seq<char> {
    match a {
        TaskAction::Complete => "http://172.30.152.201:4000/tasks/"@ + id_text + "/"@
            + "complete"@,
        TaskAction::Delete => "http://172.30.152.201:4000/tasks/"@ + id_text,
    }
}

/// Method and URL of one remote mutation, ready to be sent.
pub struct RemoteRequest {
    pub method: HttpMethod,
    pub url: String,
}

/// Build the network call a task-control run shall make.
pub fn task_request(a: TaskAction, id_text: &str) -> (r: RemoteRequest)
    ensures
        r.url@ == task_endpoint(a, id_text@),
        a is Complete ==> r.method is Post,
        a is Delete ==> r.method is Delete,
{
    let mut url = String::from_str("http://172.30.152.201:4000/tasks/");
    url.append(id_text);
    match a {
        TaskAction::Complete => {
            url.append("/");
            url.append("complete");
            RemoteRequest { method: HttpMethod::Post, url }
        },
        TaskAction::Delete => RemoteRequest { method: HttpMethod::Delete, url },
    }
}

/// A decimal identifier text never spells a flag: it opens with a
/// digit, a flag with a dash.
pub proof fn lemma_identifier_is_no_flag(n: nat)
    ensures
        dec_digits(n) != "-complete"@,
        dec_digits(n) != "-delete"@,
{
    reveal_strlit("-complete");
    reveal_strlit("-delete");
    lemma_dec_digits_start(n);
    assert(is_decimal_digit(dec_digits(n)[0]));
    if dec_digits(n) == "-complete"@ {
        assert(dec_digits(n)[0] == '-');
    }
    if dec_digits(n) == "-delete"@ {
        assert(dec_digits(n)[0] == '-');
    }
}

/// Law: a command line built from any program name that spells no flag,
/// the flag of `a`, and the decimal text of an identifier parses back
/// to exactly `a` and that text — what the dashboard dispatches is what
/// a task-control run carries out.
pub proof fn lemma_dispatch_round_trip(
    prog: String,
    flag: String,
    ident: String,
    a: TaskAction,
    id: usize,
)
    requires
        flag@ == action_flag(a),
        ident@ == dec_digits(id as nat),
        prog@ != "-complete"@,
        prog@ != "-delete"@,
    ensures
        spec_parse_args(seq![prog, flag, ident]) == Some((a, dec_digits(id as nat))),
{
    lemma_identifier_is_no_flag(id as nat);
    lemma_args_round_trip(prog, flag, ident, a);
}

/// Law: a command line built from a program name, the flag of `a`, and
/// an identifier text parses back to exactly `a` and that identifier,
/// as long as the program name is no flag itself and the identifier
/// text does not spell `-complete`.
pub proof fn lemma_args_round_trip(prog: String, flag: String, ident: String, a: TaskAction)
    requires
        flag@ == action_flag(a),
        prog@ != "-complete"@,
        prog@ != "-delete"@,
        ident@ != "-complete"@,
    ensures
        spec_parse_args(seq![prog, flag, ident]) == Some((a, ident@)),
{
    reveal_strlit("-complete");
    reveal_strlit("-delete");
    let s = seq![prog, flag, ident];
    let c = "-complete"@;
    let d = "-delete"@;
    assert(s.skip(1) =~= seq![flag, ident]);
    assert(seq![flag, ident].skip(1) =~= seq![ident]);
    assert(seq![ident].skip(1) =~= Seq::<String>::empty());
    assert(c.len() == 9 && d.len() == 7);
    match a {
        TaskAction::Complete => {
            assert(first_flag_index(seq![flag, ident], c) == Some(0int));
            assert(first_flag_index(s, c) == Some(1int));
            assert(s[2] == ident);
        },
        TaskAction::Delete => {
            assert(flag@ != c);
            assert(first_flag_index(Seq::<String>::empty(), c) is None);
            assert(first_flag_index(seq![ident], c) is None);
            assert(first_flag_index(seq![flag, ident], c) is None);
            assert(first_flag_index(s, c) is None);
            assert(first_flag_index(seq![flag, ident], d) == Some(0int));
            assert(first_flag_index(s, d) == Some(1int));
            assert(s[2] == ident);
        },
    }
}

} // verus!
