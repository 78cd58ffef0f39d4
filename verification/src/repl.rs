//! Parsing the arguments of the interactive listing command.

use vstd::prelude::*;
use crate::filters::StateFilter;
use crate::text::{lower_seq, str_eq, str_eq_ignore_case, views_of};

verus! {

/// The parsed arguments of an interactive listing command.
pub struct ReplListArgs {
    pub state_filter: Option<StateFilter>,
    pub search_term: Option<String>,
}

/// The view of an optional search term.
pub open spec fn term_view(t: Option<String>) -> Option<Seq<char>> {
    match t {
        Option::Some(s) => Option::Some(s@),
        Option::None => Option::None,
    }
}

/// The result of parsing listing arguments, two at a time: a state filter
/// (`--state`/`-s`, value compared case-insensitively), a search term
/// (`--search`/`-q`), or an error naming the offending option or value.
/// Repeated options keep the last value.
pub open spec fn parse_list_args(
    args: Seq<Seq<char>>,
    state: Option<StateFilter>,
    term: Option<Seq<char>>,
) -> Result<(Option<StateFilter>, Option<Seq<char>>), Seq<char>>
    decreases args.len(),
{
    if args.len() == 0 {
        Result::Ok((state, term))
    } else if args[0] == "--state"@ || args[0] == "-s"@ {
        if args.len() < 2 {
            Result::Err("--state requires a value"@)
        } else {
            let v = lower_seq(args[1]);
            if v == lower_seq("enabled"@) {
                parse_list_args(args.skip(2), Option::Some(StateFilter::Enabled), term)
            } else if v == lower_seq("disabled"@) {
                parse_list_args(args.skip(2), Option::Some(StateFilter::Disabled), term)
            } else if v == lower_seq("uninstalled"@) {
                parse_list_args(args.skip(2), Option::Some(StateFilter::Uninstalled), term)
            } else if v == lower_seq("all"@) {
                parse_list_args(args.skip(2), Option::Some(StateFilter::All), term)
            } else {
                Result::Err("Invalid state: "@ + args[1])
            }
        }
    } else if args[0] == "--search"@ || args[0] == "-q"@ {
        if args.len() < 2 {
            Result::Err("--search requires a value"@)
        } else {
            parse_list_args(args.skip(2), state, Option::Some(args[1]))
        }
    } else {
        Result::Err("Unknown option: "@ + args[0])
    }
}

impl ReplListArgs {
    /// Parses the arguments of an interactive listing command.
    pub fn parse(args: &Vec<String>) -> (r: Result<Self, String>)
        ensures
            (match r {
                Result::Ok(parsed) => parse_list_args(views_of(args@), Option::None, Option::None)
                    == Result::<
                    (Option<StateFilter>, Option<Seq<char>>),
                    Seq<char>,
                >::Ok((parsed.state_filter, term_view(parsed.search_term))),
                Result::Err(m) => parse_list_args(views_of(args@), Option::None, Option::None)
                    == Result::<
                    (Option<StateFilter>, Option<Seq<char>>),
                    Seq<char>,
                >::Err(m@),
            }),
    {
        let ghost all = views_of(args@);
        let mut state_filter: Option<StateFilter> = Option::None;
        let mut search_term: Option<String> = Option::None;
        proof {
            assert(all.skip(0) =~= all);
        }
        let mut i: usize = 0;
        while i < args.len()
            invariant
                i <= args@.len(),
                all == views_of(args@),
                parse_list_args(all, Option::None, Option::None) == parse_list_args(
                    all.skip(i as int),
                    state_filter,
                    term_view(search_term),
                ),
            decreases args@.len() - i,
        {
            proof {
                assert(all.skip(i as int)[0] == all[i as int]);
                if i + 1 < args@.len() {
                    assert(all.skip(i as int)[1] == all[i + 1]);
                }
                if i + 2 <= args@.len() {
                    assert(all.skip(i as int).skip(2) =~= all.skip(i + 2));
                }
            }
            let arg: &String = &args[i];
            if str_eq(arg.as_str(), "--state") || str_eq(arg.as_str(), "-s") {
                if i + 1 >= args.len() {
                    return Result::Err(String::from_str("--state requires a value"));
                }
                let value: &String = &args[i + 1];
                if str_eq_ignore_case(value.as_str(), "enabled") {
                    state_filter = Option::Some(StateFilter::Enabled);
                } else if str_eq_ignore_case(value.as_str(), "disabled") {
                    state_filter = Option::Some(StateFilter::Disabled);
                } else if str_eq_ignore_case(value.as_str(), "uninstalled") {
                    state_filter = Option::Some(StateFilter::Uninstalled);
                } else if str_eq_ignore_case(value.as_str(), "all") {
                    state_filter = Option::Some(StateFilter::All);
                } else {
                    let mut msg = String::from_str("Invalid state: ");
                    msg.append(value.as_str());
                    return Result::Err(msg);
                }
                i += 2;
            } else if str_eq(arg.as_str(), "--search") || str_eq(arg.as_str(), "-q") {
                if i + 1 >= args.len() {
                    return Result::Err(String::from_str("--search requires a value"));
                }
                search_term = Option::Some(args[i + 1].clone());
                i += 2;
            } else {
                let mut msg = String::from_str("Unknown option: ");
                msg.append(arg.as_str());
                return Result::Err(msg);
            }
        }
        proof {
            assert(all.skip(args@.len() as int) =~= Seq::<Seq<char>>::empty());
        }
        Result::Ok(ReplListArgs { state_filter, search_term })
    }
}

} // verus!
