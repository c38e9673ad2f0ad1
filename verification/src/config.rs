//! The immutable run configuration: display flags, the refresh interval in
//! milliseconds, and the command tokens joined into the single string that is
//! handed to the shell.

use vstd::prelude::*;

verus! {

/// The command tokens joined with single spaces, in order.
pub open spec fn spec_join(ts: Seq<Seq<char>>) -> Seq<char>
    decreases ts.len(),
{
    if ts.len() == 0 {
        Seq::empty()
    } else if ts.len() == 1 {
        ts[0]
    } else {
        ts[0] + seq![' '] + spec_join(ts.skip(1))
    }
}

fn join_from(tokens: &Vec<String>, i: usize) -> (r: String)
    requires
        i <= tokens.len(),
    ensures
        r@ == spec_join(tokens.deep_view().skip(i as int)),
    decreases tokens.len() - i,
{
    let ghost dv = tokens.deep_view();
    if i == tokens.len() {
        proof {
            assert(dv.skip(i as int) =~= Seq::<Seq<char>>::empty());
        }
        String::new()
    } else if i + 1 == tokens.len() {
        let r = tokens[i].clone();
        proof {
            assert(dv.skip(i as int).len() == 1);
            assert(dv.skip(i as int)[0] == dv[i as int]);
        }
        r
    } else {
        let mut r = tokens[i].clone();
        r.append(" ");
        let rest = join_from(tokens, i + 1);
        r.append(rest.as_str());
        proof {
            reveal_strlit(" ");
            assert((" ")@ =~= seq![' ']);
            assert(dv.skip(i as int)[0] == dv[i as int]);
            assert(dv.skip(i as int).skip(1) =~= dv.skip(i + 1));
            assert(r@ =~= spec_join(dv.skip(i as int)));
        }
        r
    }
}

/// Joins the command tokens with single spaces into one shell invocation
/// string, as the command line is passed to `sh -c`.
pub fn join_tokens(tokens: &Vec<String>) -> (r: String)
    ensures
        r@ == spec_join(tokens.deep_view()),
{
    let r = join_from(tokens, 0);
    proof {
        assert(tokens.deep_view().skip(0) =~= tokens.deep_view());
    }
    r
}

/// Everything fixed at startup. `difference` and `cumulative` are accepted
/// for compatibility but have no effect on rendering; `no_title` suppresses
/// the status header. The interval is kept in whole milliseconds.
pub struct WatchOpts {
    pub difference: bool,
    pub cumulative: bool,
    pub no_title: bool,
    pub interval_ms: u64,
    pub command: String,
}

impl WatchOpts {
    /// Builds the configuration, joining the command tokens into the string
    /// that both the shell and the status line will see.
    pub fn new(
        difference: bool,
        cumulative: bool,
        no_title: bool,
        interval_ms: u64,
        command_tokens: &Vec<String>,
    ) -> (r: WatchOpts)
        ensures
            r.difference == difference,
            r.cumulative == cumulative,
            r.no_title == no_title,
            r.interval_ms == interval_ms,
            r.command@ == spec_join(command_tokens.deep_view()),
    {
        WatchOpts {
            difference,
            cumulative,
            no_title,
            interval_ms,
            command: join_tokens(command_tokens),
        }
    }
}

} // verus!
