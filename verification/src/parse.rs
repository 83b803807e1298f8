//! Parsers for the text the `tailscale` command-line client prints, with
//! exact contracts over the line, token and pattern specifications.

use vstd::prelude::*;
use vstd::string::*;

use crate::pattern::{ipv4_pattern_match, line_has_ipv4, line_has_ts_host, ts_host_pattern_match};
use crate::text::{
    contains_seq, contains_seq_ci, contains_str, contains_str_ci, is_space, lemma_tokens_nonempty,
    lines_of,
    prefix_before_dot, spec_lines, spec_tokens, spec_trim, starts_with_seq, starts_with_seq_ci,
    starts_with_str, starts_with_str_ci, strip_quote_comma, tokens_of, trim_of, up_to_dot,
    without_quote_comma,
};

verus! {

/// The line reports the boolean preference named by `key` as on: what
/// one filtered line of `tailscale debug prefs` output says.
pub open spec fn line_reports_true(line: Seq<char>, key: Seq<char>) -> bool {
    contains_seq(line, key) && contains_seq(line, "true"@)
}

/// Some line of `output` holds both `key` and `true`.
pub open spec fn spec_pref_flag(output: Seq<char>, key: Seq<char>) -> bool {
    exists|i: int|
        0 <= i < spec_lines(output).len() && line_reports_true(#[trigger] spec_lines(output)[i], key)
}

/// Whether `tailscale debug prefs` output reports the boolean preference
/// named by `key` as on. Decides the SSH, route-acceptance and
/// want-running toggles.
pub fn pref_flag_enabled(output: &str, key: &str) -> (r: bool)
    ensures
        r == spec_pref_flag(output@, key@),
{
    let ls = lines_of(output);
    let mut i: usize = 0;
    while i < ls.len()
        invariant
            i <= ls@.len(),
            ls.deep_view() == spec_lines(output@),
            forall|j: int| 0 <= j < i ==> !line_reports_true(spec_lines(output@)[j], key@),
        decreases ls@.len() - i,
    {
        let line = &ls[i];
        proof {
            assert(line@ == spec_lines(output@)[i as int]);
        }
        if contains_str(line.as_str(), key) && contains_str(line.as_str(), "true") {
            return true;
        }
        i = i + 1;
    }
    false
}

/// The second whitespace token of every line on which the IPv4 pattern
/// matches; `None` when such a line has fewer than two tokens.
pub open spec fn device_names(lines: Seq<Seq<char>>) -> Option<Seq<Seq<char>>>
    decreases lines.len(),
{
    if lines.len() == 0 {
        Some(Seq::empty())
    } else {
        match device_names(lines.drop_last()) {
            Option::None => None,
            Option::Some(prev) => {
                let l = lines.last();
                if ipv4_pattern_match(l) {
                    if spec_tokens(l).len() >= 2 {
                        Some(prev.push(spec_tokens(l)[1]))
                    } else {
                        None
                    }
                } else {
                    Some(prev)
                }
            },
        }
    }
}

/// The dropdown entries scraped from `tailscale status` output:
/// `Select` first, then every matched device name but the first, which
/// is the host's own.
pub open spec fn spec_devices(output: Seq<char>) -> Option<Seq<Seq<char>>> {
    match device_names(spec_lines(output)) {
        Option::None => None,
        Option::Some(names) => Some(
            seq!["Select"@] + if names.len() == 0 {
                names
            } else {
                names.drop_first()
            },
        ),
    }
}

proof fn lemma_device_names_none(lines: Seq<Seq<char>>, k: int)
    requires
        0 <= k <= lines.len(),
        device_names(lines.subrange(0, k)) is None,
    ensures
        device_names(lines) is None,
    decreases lines.len() - k,
{
    if k < lines.len() {
        assert(lines.subrange(0, k + 1).drop_last() =~= lines.subrange(0, k));
        assert(device_names(lines.subrange(0, k + 1)) is None);
        lemma_device_names_none(lines, k + 1);
    } else {
        assert(lines.subrange(0, lines.len() as int) =~= lines);
    }
}

/// The device dropdown scraped from `tailscale status` output; `None`
/// when a matched line lacks a device name, on which the caller gives
/// up as the scrape cannot be trusted.
pub fn parse_devices(output: &str) -> (r: Option<Vec<String>>)
    ensures
        r is None <==> spec_devices(output@) is None,
        r matches Some(v) ==> spec_devices(output@) == Some(v.deep_view()),
{
    let ls = lines_of(output);
    let ghost lv = spec_lines(output@);
    let mut names: Vec<String> = Vec::new();
    let mut i: usize = 0;
    proof {
        assert(lv.subrange(0, 0) =~= Seq::<Seq<char>>::empty());
        assert(device_names(lv.subrange(0, 0)) == Some(names.deep_view()));
    }
    while i < ls.len()
        invariant
            i <= ls@.len(),
            ls.deep_view() == lv,
            lv == spec_lines(output@),
            device_names(lv.subrange(0, i as int)) == Some(names.deep_view()),
        decreases ls@.len() - i,
    {
        let ghost pre = lv.subrange(0, i as int);
        let ghost post = lv.subrange(0, i + 1);
        proof {
            assert(post.drop_last() =~= pre);
            assert(post.last() == lv[i as int]);
        }
        let line = &ls[i];
        proof {
            assert(line@ == lv[i as int]);
        }
        if line_has_ipv4(line.as_str()) {
            let ts = tokens_of(line.as_str());
            if ts.len() >= 2 {
                let ghost old_names = names.deep_view();
                let name = ts[1].clone();
                proof {
                    assert(name@ == spec_tokens(line@)[1]);
                }
                names.push(name);
                proof {
                    assert(names.deep_view() =~= old_names.push(spec_tokens(lv[i as int])[1]));
                }
            } else {
                proof {
                    assert(device_names(post) is None);
                    lemma_device_names_none(lv, i + 1);
                }
                return None;
            }
        }
        i = i + 1;
    }
    proof {
        assert(lv.subrange(0, lv.len() as int) =~= lv);
    }
    let mut res: Vec<String> = Vec::new();
    res.push("Select".to_owned());
    let ghost all = names.deep_view();
    if names.len() == 0 {
        proof {
            assert(res.deep_view() =~= seq!["Select"@] + all);
        }
        return Some(res);
    }
    let mut j: usize = 1;
    while j < names.len()
        invariant
            1 <= j <= names@.len(),
            names.deep_view() == all,
            res.deep_view() =~= seq!["Select"@] + all.subrange(1, j as int),
        decreases names@.len() - j,
    {
        let ghost old_res = res.deep_view();
        let entry = names[j].clone();
        res.push(entry);
        proof {
            assert(res.deep_view() =~= old_res.push(all[j as int]));
            assert(old_res.push(all[j as int]) =~= seq!["Select"@] + all.subrange(1, j + 1));
        }
        j = j + 1;
    }
    proof {
        assert(all.subrange(1, all.len() as int) =~= all.drop_first());
    }
    Some(res)
}

/// The host part of the second whitespace token of every line on which
/// the tailnet host pattern matches; `None` when such a line has fewer
/// than two tokens.
pub open spec fn exit_node_names(lines: Seq<Seq<char>>) -> Option<Seq<Seq<char>>>
    decreases lines.len(),
{
    if lines.len() == 0 {
        Some(Seq::empty())
    } else {
        match exit_node_names(lines.drop_last()) {
            Option::None => None,
            Option::Some(prev) => {
                let l = lines.last();
                if ts_host_pattern_match(l) {
                    if spec_tokens(l).len() >= 2 {
                        Some(prev.push(up_to_dot(spec_tokens(l)[1])))
                    } else {
                        None
                    }
                } else {
                    Some(prev)
                }
            },
        }
    }
}

/// The exit-node dropdown scraped from `tailscale exit-node list`
/// output: a fixed message when the output is empty, and otherwise
/// `None` (no exit node) first, then every matched host name.
pub open spec fn spec_exit_nodes(output: Seq<char>) -> Option<Seq<Seq<char>>> {
    if output.len() == 0 {
        Some(seq!["No exit nodes found!"@])
    } else {
        match exit_node_names(spec_lines(output)) {
            Option::None => None,
            Option::Some(names) => Some(seq!["None"@] + names),
        }
    }
}

proof fn lemma_exit_node_names_none(lines: Seq<Seq<char>>, k: int)
    requires
        0 <= k <= lines.len(),
        exit_node_names(lines.subrange(0, k)) is None,
    ensures
        exit_node_names(lines) is None,
    decreases lines.len() - k,
{
    if k < lines.len() {
        assert(lines.subrange(0, k + 1).drop_last() =~= lines.subrange(0, k));
        assert(exit_node_names(lines.subrange(0, k + 1)) is None);
        lemma_exit_node_names_none(lines, k + 1);
    } else {
        assert(lines.subrange(0, lines.len() as int) =~= lines);
    }
}

/// The exit-node dropdown scraped from `tailscale exit-node list`
/// output; `None` when a matched line lacks a host name.
pub fn parse_exit_nodes(output: &str) -> (r: Option<Vec<String>>)
    ensures
        r is None <==> spec_exit_nodes(output@) is None,
        r matches Some(v) ==> spec_exit_nodes(output@) == Some(v.deep_view()),
{
    if output.unicode_len() == 0 {
        let mut res: Vec<String> = Vec::new();
        res.push("No exit nodes found!".to_owned());
        proof {
            assert(res.deep_view() =~= seq!["No exit nodes found!"@]);
        }
        return Some(res);
    }
    let ls = lines_of(output);
    let ghost lv = spec_lines(output@);
    let mut res: Vec<String> = Vec::new();
    res.push("None".to_owned());
    let mut i: usize = 0;
    proof {
        assert(lv.subrange(0, 0) =~= Seq::<Seq<char>>::empty());
        assert(res.deep_view() =~= seq!["None"@]);
        assert(seq!["None"@] + Seq::<Seq<char>>::empty() =~= seq!["None"@]);
    }
    while i < ls.len()
        invariant
            i <= ls@.len(),
            ls.deep_view() == lv,
            lv == spec_lines(output@),
            output@.len() > 0,
            exit_node_names(lv.subrange(0, i as int)) matches Some(names) && res.deep_view()
                == seq!["None"@] + names,
        decreases ls@.len() - i,
    {
        let ghost pre = lv.subrange(0, i as int);
        let ghost post = lv.subrange(0, i + 1);
        proof {
            assert(post.drop_last() =~= pre);
            assert(post.last() == lv[i as int]);
        }
        let line = &ls[i];
        proof {
            assert(line@ == lv[i as int]);
        }
        if line_has_ts_host(line.as_str()) {
            let ts = tokens_of(line.as_str());
            if ts.len() >= 2 {
                let ghost old_res = res.deep_view();
                let name = prefix_before_dot(ts[1].as_str());
                proof {
                    assert(name@ == up_to_dot(spec_tokens(line@)[1]));
                }
                res.push(name);
                proof {
                    assert(res.deep_view() =~= old_res.push(up_to_dot(
                        spec_tokens(lv[i as int])[1],
                    )));
                    let names = exit_node_names(pre)->0;
                    assert((seq!["None"@] + names).push(up_to_dot(spec_tokens(lv[i as int])[1]))
                        =~= seq!["None"@] + names.push(up_to_dot(spec_tokens(lv[i as int])[1])));
                }
            } else {
                proof {
                    assert(exit_node_names(post) is None);
                    lemma_exit_node_names_none(lv, i + 1);
                }
                return None;
            }
        }
        i = i + 1;
    }
    proof {
        assert(lv.subrange(0, lv.len() as int) =~= lv);
    }
    Some(res)
}

/// The second whitespace token of every line that does not begin with
/// `id` in any case; `None` when such a line has fewer than two tokens.
pub open spec fn account_names(lines: Seq<Seq<char>>) -> Option<Seq<Seq<char>>>
    decreases lines.len(),
{
    if lines.len() == 0 {
        Some(Seq::empty())
    } else {
        match account_names(lines.drop_last()) {
            Option::None => None,
            Option::Some(prev) => {
                let l = lines.last();
                if starts_with_seq_ci(l, "id"@) {
                    Some(prev)
                } else if spec_tokens(l).len() >= 2 {
                    Some(prev.push(spec_tokens(l)[1]))
                } else {
                    None
                }
            },
        }
    }
}

/// The account list scraped from `tailscale switch --list` output.
pub open spec fn spec_accounts(output: Seq<char>) -> Option<Seq<Seq<char>>> {
    account_names(spec_lines(output))
}

proof fn lemma_account_names_none(lines: Seq<Seq<char>>, k: int)
    requires
        0 <= k <= lines.len(),
        account_names(lines.subrange(0, k)) is None,
    ensures
        account_names(lines) is None,
    decreases lines.len() - k,
{
    if k < lines.len() {
        assert(lines.subrange(0, k + 1).drop_last() =~= lines.subrange(0, k));
        assert(account_names(lines.subrange(0, k + 1)) is None);
        lemma_account_names_none(lines, k + 1);
    } else {
        assert(lines.subrange(0, lines.len() as int) =~= lines);
    }
}

/// The accounts scraped from `tailscale switch --list` output: the
/// second token of every line below the header; `None` when such a line
/// lacks one.
pub fn parse_accounts(output: &str) -> (r: Option<Vec<String>>)
    ensures
        r is None <==> spec_accounts(output@) is None,
        r matches Some(v) ==> spec_accounts(output@) == Some(v.deep_view()),
{
    let ls = lines_of(output);
    let ghost lv = spec_lines(output@);
    let mut res: Vec<String> = Vec::new();
    let mut i: usize = 0;
    proof {
        assert(lv.subrange(0, 0) =~= Seq::<Seq<char>>::empty());
    }
    while i < ls.len()
        invariant
            i <= ls@.len(),
            ls.deep_view() == lv,
            lv == spec_lines(output@),
            account_names(lv.subrange(0, i as int)) == Some(res.deep_view()),
        decreases ls@.len() - i,
    {
        let ghost pre = lv.subrange(0, i as int);
        let ghost post = lv.subrange(0, i + 1);
        proof {
            assert(post.drop_last() =~= pre);
            assert(post.last() == lv[i as int]);
        }
        let line = &ls[i];
        proof {
            assert(line@ == lv[i as int]);
        }
        if !starts_with_str_ci(line.as_str(), "id") {
            let ts = tokens_of(line.as_str());
            if ts.len() >= 2 {
                let ghost old_res = res.deep_view();
                let name = ts[1].clone();
                res.push(name);
                proof {
                    assert(res.deep_view() =~= old_res.push(spec_tokens(lv[i as int])[1]));
                }
            } else {
                proof {
                    assert(account_names(post) is None);
                    lemma_account_names_none(lv, i + 1);
                }
                return None;
            }
        }
        i = i + 1;
    }
    proof {
        assert(lv.subrange(0, lv.len() as int) =~= lv);
    }
    Some(res)
}

/// The line carries the tailnet name in `tailscale status --json`
/// output: trimmed, it begins with a quoted `Name` key.
pub open spec fn is_name_line(l: Seq<char>) -> bool {
    starts_with_seq(spec_trim(l), "\"Name\""@)
}

/// The first line that carries the tailnet name, when there is one.
pub open spec fn first_name_line(lines: Seq<Seq<char>>) -> Option<Seq<char>>
    decreases lines.len(),
{
    if lines.len() == 0 {
        None
    } else if is_name_line(lines[0]) {
        Some(lines[0])
    } else {
        first_name_line(lines.drop_first())
    }
}

/// The tailnet name scraped from a name line: its last whitespace token
/// with every double quote and comma removed, trimmed.
pub open spec fn scraped_account(l: Seq<char>) -> Seq<char> {
    spec_trim(without_quote_comma(spec_tokens(spec_trim(l)).last()))
}

/// The current tailnet account scraped from `tailscale status --json`
/// output; `None` when no line carries the name.
pub open spec fn spec_current_account(output: Seq<char>) -> Option<Seq<char>> {
    match first_name_line(spec_lines(output)) {
        Option::None => None,
        Option::Some(l) => Some(scraped_account(l)),
    }
}

/// The current tailnet account scraped from `tailscale status --json`
/// output.
pub fn parse_current_account(output: &str) -> (r: Option<String>)
    ensures
        r is None <==> spec_current_account(output@) is None,
        r matches Some(v) ==> spec_current_account(output@) == Some(v@),
{
    let ls = lines_of(output);
    let ghost lv = spec_lines(output@);
    let mut i: usize = 0;
    proof {
        assert(lv.subrange(0, lv.len() as int) =~= lv);
    }
    while i < ls.len()
        invariant
            i <= ls@.len(),
            ls.deep_view() == lv,
            lv == spec_lines(output@),
            first_name_line(lv) == first_name_line(lv.subrange(i as int, lv.len() as int)),
        decreases ls@.len() - i,
    {
        let ghost rest = lv.subrange(i as int, lv.len() as int);
        proof {
            assert(rest[0] == lv[i as int]);
            assert(rest.drop_first() =~= lv.subrange(i + 1, lv.len() as int));
        }
        let line = &ls[i];
        proof {
            assert(line@ == lv[i as int]);
        }
        let trimmed = trim_of(line.as_str());
        if starts_with_str(trimmed, "\"Name\"") {
            proof {
                assert(first_name_line(lv) == Some(line@));
                reveal_strlit("\"Name\"");
                assert(trimmed@[0] == '"') by {
                    assert(trimmed@.subrange(0, "\"Name\""@.len() as int)[0] == trimmed@[0]);
                }
                assert(!is_space('"'));
                lemma_tokens_nonempty(trimmed@);
            }
            let ts = tokens_of(trimmed);
            let tok = &ts[ts.len() - 1];
            proof {
                assert(tok@ == spec_tokens(trimmed@).last());
            }
            let stripped = strip_quote_comma(tok.as_str());
            let name = trim_of(stripped.as_str()).to_owned();
            return Some(name);
        }
        i = i + 1;
    }
    proof {
        assert(lv.subrange(ls@.len() as int, lv.len() as int) =~= Seq::<Seq<char>>::empty());
    }
    None
}

/// The lines of `tailscale debug prefs` output that mention route
/// advertisement, joined into one text.
pub open spec fn advertise_blob(lines: Seq<Seq<char>>) -> Seq<char>
    decreases lines.len(),
{
    if lines.len() == 0 {
        Seq::empty()
    } else {
        advertise_blob(lines.drop_last()) + if contains_seq_ci(lines.last(), "advertiseroutes"@) {
            lines.last()
        } else {
            Seq::empty()
        }
    }
}

/// What `tailscale debug prefs` output says about the host being an
/// exit node: it is one unless the joined route-advertisement lines
/// report `null`.
pub open spec fn spec_is_exit_node(output: Seq<char>) -> bool {
    !contains_seq(advertise_blob(spec_lines(output)), "null"@)
}

/// Whether the host advertises itself as an exit node, scraped from
/// `tailscale debug prefs` output.
pub fn parse_is_exit_node(output: &str) -> (r: bool)
    ensures
        r == spec_is_exit_node(output@),
{
    let ls = lines_of(output);
    let ghost lv = spec_lines(output@);
    let mut joined = String::new();
    let mut i: usize = 0;
    proof {
        assert(lv.subrange(0, 0) =~= Seq::<Seq<char>>::empty());
    }
    while i < ls.len()
        invariant
            i <= ls@.len(),
            ls.deep_view() == lv,
            lv == spec_lines(output@),
            joined@ == advertise_blob(lv.subrange(0, i as int)),
        decreases ls@.len() - i,
    {
        let ghost pre = lv.subrange(0, i as int);
        let ghost post = lv.subrange(0, i + 1);
        proof {
            assert(post.drop_last() =~= pre);
            assert(post.last() == lv[i as int]);
        }
        let line = &ls[i];
        proof {
            assert(line@ == lv[i as int]);
        }
        if contains_str_ci(line.as_str(), "advertiseroutes") {
            joined.append(line.as_str());
        } else {
            proof {
                assert(joined@ + Seq::<char>::empty() =~= joined@);
            }
        }
        i = i + 1;
    }
    proof {
        assert(lv.subrange(0, lv.len() as int) =~= lv);
    }
    !contains_str(joined.as_str(), "null")
}

/// Whether `tailscale switch` reported success, scraped from its
/// output.
pub open spec fn spec_switch_success(output: Seq<char>) -> bool {
    contains_seq_ci(output, "success"@)
}

/// Whether switching accounts succeeded: the output mentions success.
pub fn parse_switch_success(output: &str) -> (r: bool)
    ensures
        r == spec_switch_success(output@),
{
    contains_str_ci(output, "success")
}

} // verus!
