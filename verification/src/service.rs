//! Decisions of the zaprett service: which lists feed nfqws, how the
//! strategy text is completed, how nfqws is started and what status is
//! reported.

use vstd::prelude::*;
use vstd::string::*;
use crate::pattern::{Pattern, PatternError, spec_regex_compiles, spec_regex_find, spec_regex_replace_all};
use crate::text::{all_white_space, chars_of, is_whitespace, split_whitespace, words};

verus! {

/// Directory of the zaprett module.
pub const MODULE_DIR: &'static str = "/data/adb/modules/zaprett";

/// Directory for the merged lists.
pub const TMP_DIR: &'static str = "/data/adb/modules/zaprett/tmp";

/// The user's configuration file.
pub const CONFIG_PATH: &'static str = "/sdcard/zaprett/config.json";

/// The user's zaprett directory, substituted for `$zaprettdir`.
pub const ZAPRETT_DIR: &'static str = "/sdcard/zaprett";

/// The file whose presence enables autostart.
pub const AUTOSTART_FLAG: &'static str = "/data/adb/modules/zaprett/autostart";

/// The module description file holding its version.
pub const MODULE_PROP: &'static str = "/data/adb/modules/zaprett/module.prop";

/// The kernel setting made liberal before nfqws runs.
pub const CONNTRACK_LIBERAL_SYSCTL: &'static str = "net.netfilter.nf_conntrack_tcp_be_liberal";

/// The arguments nfqws gets when started as a daemon.
pub const DAEMON_NFQWS_ARGS: &'static str = "--uid=0:0 --qnum=200";

/// Merged host list in whitelist mode.
pub const HOSTLIST_FILE: &'static str = "/data/adb/modules/zaprett/tmp/hostlist";

/// Merged IP set in whitelist mode.
pub const IPSET_FILE: &'static str = "/data/adb/modules/zaprett/tmp/ipset";

/// Merged excluded host list in blacklist mode.
pub const HOSTLIST_EXCLUDE_FILE: &'static str = "/data/adb/modules/zaprett/tmp/hostlist-exclude";

/// Merged excluded IP set in blacklist mode.
pub const IPSET_EXCLUDE_FILE: &'static str = "/data/adb/modules/zaprett/tmp/ipset-exclude";

/// nfqws option naming the host list in whitelist mode.
pub const HOSTLIST_ARG: &'static str = "--hostlist=/data/adb/modules/zaprett/tmp/hostlist";

/// nfqws option naming the IP set in whitelist mode.
pub const IPSET_ARG: &'static str = "--ipset=/data/adb/modules/zaprett/tmp/ipset";

/// nfqws option naming the excluded host list in blacklist mode.
pub const HOSTLIST_EXCLUDE_ARG: &'static str =
    "--hostlist-exclude=/data/adb/modules/zaprett/tmp/hostlist-exclude";

/// nfqws option naming the excluded IP set in blacklist mode.
pub const IPSET_EXCLUDE_ARG: &'static str = "--ipset-exclude=/data/adb/modules/zaprett/tmp/ipset-exclude";

/// The configuration of the service, as the user's config file holds it.
pub struct Config {
    pub active_lists: Vec<String>,
    pub active_ipsets: Vec<String>,
    pub active_exclude_lists: Vec<String>,
    pub active_exclude_ipsets: Vec<String>,
    pub list_type: String,
    pub strategy: String,
    pub app_list: String,
    pub whitelist: Vec<String>,
    pub blacklist: Vec<String>,
}

/// Whether the lists name the hosts to treat (whitelist) or the hosts to
/// leave alone (blacklist).
#[derive(Debug, Copy, Clone, PartialEq, Eq, Structural)]
pub enum ListType {
    Whitelist,
    Blacklist,
}

/// Whether two character vectors are equal.
fn chars_equal(a: &Vec<char>, b: &Vec<char>) -> (res: bool)
    ensures
        res == (a@ == b@),
{
    if a.len() != b.len() {
        return false;
    }
    let mut i: usize = 0;
    while i < a.len()
        invariant
            0 <= i <= a@.len(),
            a@.len() == b@.len(),
            forall|j: int| 0 <= j < i ==> a@[j] == b@[j],
        decreases a@.len() - i,
    {
        if a[i] != b[i] {
            return false;
        }
        i = i + 1;
    }
    assert(a@ =~= b@);
    true
}

/// Whether two texts are equal.
pub fn text_equals(a: &str, b: &str) -> (res: bool)
    ensures
        res == (a@ == b@),
{
    let ca = chars_of(a);
    let cb = chars_of(b);
    chars_equal(&ca, &cb)
}

impl ListType {
    /// The list type called `name` in the configuration: `whitelist` or
    /// `blacklist`; `None` for any other name.
    pub fn from_name(name: &str) -> (res: Option<ListType>)
        ensures
            res == Some(ListType::Whitelist) <==> name@ == "whitelist"@,
            res == Some(ListType::Blacklist) <==> name@ == "blacklist"@,
            res is None <==> (name@ != "whitelist"@ && name@ != "blacklist"@),
    {
        proof {
            reveal_strlit("whitelist");
            reveal_strlit("blacklist");
            assert("whitelist"@[0] != "blacklist"@[0]);
        }
        if text_equals(name, "whitelist") {
            Some(ListType::Whitelist)
        } else if text_equals(name, "blacklist") {
            Some(ListType::Blacklist)
        } else {
            None
        }
    }
}

/// The lists to merge before nfqws runs and the options that name the
/// merged files.
pub struct ListPlan {
    /// Files whose contents make the host list.
    pub hostlist_sources: Vec<String>,
    /// Where the merged host list goes.
    pub hostlist_path: String,
    /// Files whose contents make the IP set.
    pub ipset_sources: Vec<String>,
    /// Where the merged IP set goes.
    pub ipset_path: String,
    /// The nfqws option that names the merged host list.
    pub hostlist_arg: String,
    /// The nfqws option that names the merged IP set.
    pub ipset_arg: String,
}

/// The lists to merge for a configuration: in whitelist mode the active
/// lists and IP sets, as the host list and IP set; in blacklist mode the
/// active exclusion lists and IP sets, as the excluded host list and IP
/// set.
pub fn plan_lists(config: Config, list_type: ListType) -> (res: ListPlan)
    ensures
        list_type == ListType::Whitelist ==> {
            &&& res.hostlist_sources@ == config.active_lists@
            &&& res.ipset_sources@ == config.active_ipsets@
            &&& res.hostlist_path@ == HOSTLIST_FILE@
            &&& res.ipset_path@ == IPSET_FILE@
            &&& res.hostlist_arg@ == HOSTLIST_ARG@
            &&& res.ipset_arg@ == IPSET_ARG@
        },
        list_type == ListType::Blacklist ==> {
            &&& res.hostlist_sources@ == config.active_exclude_lists@
            &&& res.ipset_sources@ == config.active_exclude_ipsets@
            &&& res.hostlist_path@ == HOSTLIST_EXCLUDE_FILE@
            &&& res.ipset_path@ == IPSET_EXCLUDE_FILE@
            &&& res.hostlist_arg@ == HOSTLIST_EXCLUDE_ARG@
            &&& res.ipset_arg@ == IPSET_EXCLUDE_ARG@
        },
{
    match list_type {
        ListType::Whitelist => ListPlan {
            hostlist_sources: config.active_lists,
            hostlist_path: String::from_str(HOSTLIST_FILE),
            ipset_sources: config.active_ipsets,
            ipset_path: String::from_str(IPSET_FILE),
            hostlist_arg: String::from_str(HOSTLIST_ARG),
            ipset_arg: String::from_str(IPSET_ARG),
        },
        ListType::Blacklist => ListPlan {
            hostlist_sources: config.active_exclude_lists,
            hostlist_path: String::from_str(HOSTLIST_EXCLUDE_FILE),
            ipset_sources: config.active_exclude_ipsets,
            ipset_path: String::from_str(IPSET_EXCLUDE_FILE),
            hostlist_arg: String::from_str(HOSTLIST_EXCLUDE_ARG),
            ipset_arg: String::from_str(IPSET_EXCLUDE_ARG),
        },
    }
}


/// The strategy used when the configured strategy file cannot be read.
pub const DEFAULT_STRATEGY: &'static str = "\
    \n        \
    --filter-tcp=80 --dpi-desync=fake,split2 --dpi-desync-autottl=2 --dpi-desync-fooling=md5sig,badsum $hostlist --new\n        \
    --filter-tcp=443 $hostlist --dpi-desync=fake,split2 --dpi-desync-repeats=6 --dpi-desync-fooling=md5sig,badsum --dpi-desync-fake-tls=${zaprettdir}/bin/tls_clienthello_www_google_com.bin --new\n        \
    --filter-tcp=80,443 --dpi-desync=fake,disorder2 --dpi-desync-repeats=6 --dpi-desync-autottl=2 --dpi-desync-fooling=md5sig,badsum $hostlist --new\n        \
    --filter-udp=50000-50100 --dpi-desync=fake --dpi-desync-any-protocol --dpi-desync-fake-quic=0xC30000000108 --new\n        \
    --filter-udp=443 $hostlist --dpi-desync=fake --dpi-desync-repeats=6 --dpi-desync-fake-quic=${zaprettdir}/bin/quic_initial_www_google_com.bin --new\n        \
    --filter-udp=443 --dpi-desync=fake --dpi-desync-repeats=6 $hostlist\n        \
    ";

/// Pattern of the host list placeholder, `$hostlist`.
pub const HOSTLIST_PATTERN: &'static str = "\\$hostlist";

/// Pattern of the IP set placeholder, `$ipset`.
pub const IPSET_PATTERN: &'static str = "\\$ipset";

/// Pattern of the zaprett directory placeholder, `$zaprettdir` with
/// optional braces.
pub const ZAPRETTDIR_PATTERN: &'static str = "\\$\\{?zaprettdir\\}?";

/// The strategy text to complete: the content of the configured strategy
/// file when it could be read, the default strategy otherwise.
pub fn select_strategy(file_text: Option<String>) -> (res: String)
    ensures
        file_text matches Some(t) ==> res@ == t@,
        file_text is None ==> res@ == DEFAULT_STRATEGY@,
{
    match file_text {
        Some(t) => t,
        None => String::from_str(DEFAULT_STRATEGY),
    }
}

/// Whether the three placeholder patterns compile.
pub open spec fn placeholder_patterns_compile() -> bool {
    &&& spec_regex_compiles(HOSTLIST_PATTERN@)
    &&& spec_regex_compiles(IPSET_PATTERN@)
    &&& spec_regex_compiles(ZAPRETTDIR_PATTERN@)
}

/// A strategy with its placeholders filled in: `$hostlist` by the host
/// list option, then `$ipset` by the IP set option, then `$zaprettdir` by
/// the zaprett directory.
pub open spec fn completed_strategy(
    strategy: Seq<char>,
    hostlist_arg: Seq<char>,
    ipset_arg: Seq<char>,
) -> Seq<char> {
    let with_hosts = spec_regex_replace_all(HOSTLIST_PATTERN@, strategy, hostlist_arg);
    let with_ipsets = spec_regex_replace_all(IPSET_PATTERN@, with_hosts, ipset_arg);
    spec_regex_replace_all(ZAPRETTDIR_PATTERN@, with_ipsets, ZAPRETT_DIR@)
}

/// Whatever the list type, the `$zaprettdir` placeholders are filled in
/// last: a completed strategy is what replacing every match of the
/// zaprettdir pattern by the zaprett directory makes of some text.
pub proof fn lemma_zaprettdir_always_filled(
    strategy: Seq<char>,
    hostlist_arg: Seq<char>,
    ipset_arg: Seq<char>,
)
    ensures
        exists|t: Seq<char>|
            completed_strategy(strategy, hostlist_arg, ipset_arg) == #[trigger] spec_regex_replace_all(
                ZAPRETTDIR_PATTERN@,
                t,
                ZAPRETT_DIR@,
            ),
{
    let with_hosts = spec_regex_replace_all(HOSTLIST_PATTERN@, strategy, hostlist_arg);
    let with_ipsets = spec_regex_replace_all(IPSET_PATTERN@, with_hosts, ipset_arg);
    assert(completed_strategy(strategy, hostlist_arg, ipset_arg) == spec_regex_replace_all(
        ZAPRETTDIR_PATTERN@,
        with_ipsets,
        ZAPRETT_DIR@,
    ));
}

/// Fills in the placeholders of a strategy with the options of a list plan
/// and the zaprett directory; fails only if a placeholder pattern does not
/// compile.
pub fn complete_strategy(strategy: &str, plan: &ListPlan) -> (res: Result<String, PatternError>)
    ensures
        res is Ok <==> placeholder_patterns_compile(),
        res matches Ok(s) ==> s@ == completed_strategy(
            strategy@,
            plan.hostlist_arg@,
            plan.ipset_arg@,
        ),
{
    let hostlist = match Pattern::new(HOSTLIST_PATTERN) {
        Ok(p) => p,
        Err(e) => {
            return Err(e);
        },
    };
    let ipsets = match Pattern::new(IPSET_PATTERN) {
        Ok(p) => p,
        Err(e) => {
            return Err(e);
        },
    };
    let zaprettdir = match Pattern::new(ZAPRETTDIR_PATTERN) {
        Ok(p) => p,
        Err(e) => {
            return Err(e);
        },
    };
    let with_hosts = hostlist.replace_all(strategy, plan.hostlist_arg.as_str());
    let with_ipsets = ipsets.replace_all(with_hosts.as_str(), plan.ipset_arg.as_str());
    Ok(zaprettdir.replace_all(with_ipsets.as_str(), ZAPRETT_DIR))
}

/// The texts one after another.
pub open spec fn concat_texts(parts: Seq<Seq<char>>) -> Seq<char>
    decreases parts.len(),
{
    if parts.len() == 0 {
        Seq::empty()
    } else {
        concat_texts(parts.drop_last()) + parts.last()
    }
}

/// The views of a sequence of strings.
pub open spec fn text_views(v: Seq<String>) -> Seq<Seq<char>> {
    v.map_values(|s: String| s@)
}

/// The contents of several list files joined into one, in order.
pub fn merge_contents(contents: &Vec<String>) -> (res: String)
    ensures
        res@ == concat_texts(text_views(contents@)),
{
    let mut out = String::new();
    let mut i: usize = 0;
    while i < contents.len()
        invariant
            0 <= i <= contents@.len(),
            out@ == concat_texts(text_views(contents@.take(i as int))),
        decreases contents@.len() - i,
    {
        out.append(contents[i].as_str());
        assert(text_views(contents@.take(i + 1)).drop_last() =~= text_views(
            contents@.take(i as int),
        ));
        i = i + 1;
    }
    assert(contents@.take(contents@.len() as int) =~= contents@);
    out
}

/// The sum of the lengths of the texts.
pub open spec fn total_len(parts: Seq<Seq<char>>) -> nat
    decreases parts.len(),
{
    if parts.len() == 0 {
        0
    } else {
        total_len(parts.drop_last()) + parts.last().len()
    }
}

/// The texts before a position take no more room than all of them.
proof fn lemma_total_len_prefix(parts: Seq<Seq<char>>, k: int)
    requires
        0 <= k <= parts.len(),
    ensures
        total_len(parts.take(k)) <= total_len(parts),
    decreases parts.len(),
{
    if k == parts.len() {
        assert(parts.take(k) =~= parts);
    } else {
        let init = parts.drop_last();
        assert(parts.take(k) =~= init.take(k));
        lemma_total_len_prefix(init, k);
    }
}

/// Merging loses nothing: the merged text is as long as all inputs
/// together, and each input appears whole, in order, right after the ones
/// before it.
pub proof fn lemma_merge_layout(parts: Seq<Seq<char>>)
    ensures
        concat_texts(parts).len() == total_len(parts),
        forall|k: int|
            0 <= k < parts.len() ==> concat_texts(parts).subrange(
                total_len(parts.take(k)) as int,
                (total_len(parts.take(k)) + parts[k].len()) as int,
            ) == #[trigger] parts[k],
    decreases parts.len(),
{
    if parts.len() > 0 {
        let init = parts.drop_last();
        lemma_merge_layout(init);
        let whole = concat_texts(parts);
        assert(whole == concat_texts(init) + parts.last());
        assert forall|k: int| 0 <= k < parts.len() implies whole.subrange(
            total_len(parts.take(k)) as int,
            (total_len(parts.take(k)) + parts[k].len()) as int,
        ) == #[trigger] parts[k] by {
            if k < parts.len() - 1 {
                assert(parts.take(k) =~= init.take(k));
                assert(init.take(k + 1).drop_last() =~= init.take(k));
                lemma_total_len_prefix(init, k + 1);
                assert(init[k] == parts[k]);
                assert(total_len(init.take(k + 1)) == total_len(init.take(k)) + init[k].len());
                assert(whole.subrange(
                    total_len(init.take(k)) as int,
                    (total_len(init.take(k)) + init[k].len()) as int,
                ) =~= concat_texts(init).subrange(
                    total_len(init.take(k)) as int,
                    (total_len(init.take(k)) + init[k].len()) as int,
                ));
            } else {
                assert(parts.take(k) =~= init);
                assert(whole.subrange(
                    total_len(init) as int,
                    (total_len(init) + parts.last().len()) as int,
                ) =~= parts.last());
            }
        }
    }
}

/// Name under which nfqws is started and under which its process runs.
pub const NFQWS_NAME: &'static str = "nfqws";

/// The option nfqws gets when no other is given.
pub const NFQWS_DEFAULT_OPTION: &'static str = "-v";

/// The arguments nfqws is started with for an option text: its name, then
/// the words of the text, or `-v` when the text is blank.
pub open spec fn nfqws_argv(options: Seq<char>) -> Seq<Seq<char>> {
    seq![NFQWS_NAME@] + if all_white_space(options) {
        seq![NFQWS_DEFAULT_OPTION@]
    } else {
        words(options)
    }
}

/// nfqws is always started with its own name and at least one option
/// word, and no argument is empty or holds whitespace.
pub proof fn lemma_nfqws_argv_shape(options: Seq<char>)
    ensures
        nfqws_argv(options).len() >= 2,
        nfqws_argv(options)[0] == NFQWS_NAME@,
        forall|k: int|
            0 <= k < nfqws_argv(options).len() ==> (#[trigger] nfqws_argv(options)[k]).len() > 0,
{
    crate::text::lemma_words_shape(options);
    reveal_strlit("nfqws");
    reveal_strlit("-v");
    let argv = nfqws_argv(options);
    assert forall|k: int| 0 <= k < argv.len() implies (#[trigger] argv[k]).len() > 0 by {
        if k > 0 && !all_white_space(options) {
            assert(argv[k] == words(options)[k - 1]);
        }
    }
}

/// A non-blank option text gives nfqws every one of its words, in order and
/// with nothing left out: after the name, argument `k + 1` is word `k`.
pub proof fn lemma_nfqws_argv_all_words(options: Seq<char>)
    requires
        !all_white_space(options),
    ensures
        nfqws_argv(options).len() == 1 + words(options).len(),
        forall|k: int|
            0 <= k < words(options).len() ==> nfqws_argv(options)[k + 1] == #[trigger] words(
                options,
            )[k],
        nfqws_argv(options).drop_first().flatten() == crate::text::non_space(options),
{
    crate::text::lemma_words_cover_text(options);
    assert(nfqws_argv(options).drop_first() =~= words(options));
}

/// Whether a text is blank (whitespace only).
pub fn is_blank(s: &str) -> (res: bool)
    ensures
        res == all_white_space(s@),
{
    let chars = chars_of(s);
    let mut i: usize = 0;
    while i < chars.len()
        invariant
            0 <= i <= chars@.len(),
            chars@ == s@,
            forall|j: int| 0 <= j < i ==> crate::text::is_white_space(#[trigger] s@[j]),
        decreases chars@.len() - i,
    {
        if !is_whitespace(chars[i]) {
            return false;
        }
        i = i + 1;
    }
    true
}

/// The arguments nfqws is started with for the given option text.
pub fn nfqws_args(options: &str) -> (res: Vec<String>)
    ensures
        res@.len() == nfqws_argv(options@).len(),
        forall|k: int| 0 <= k < res@.len() ==> #[trigger] res@[k]@ == nfqws_argv(options@)[k],
{
    let mut out: Vec<String> = Vec::new();
    out.push(String::from_str(NFQWS_NAME));
    if is_blank(options) {
        out.push(String::from_str(NFQWS_DEFAULT_OPTION));
    } else {
        let ws = split_whitespace(options);
        let mut i: usize = 0;
        while i < ws.len()
            invariant
                0 <= i <= ws@.len(),
                !all_white_space(options@),
                ws@.len() == words(options@).len(),
                forall|k: int| 0 <= k < ws@.len() ==> #[trigger] ws@[k]@ == words(options@)[k],
                out@.len() == 1 + i,
                forall|k: int| 0 <= k < out@.len() ==> #[trigger] out@[k]@ == nfqws_argv(
                    options@,
                )[k],
            decreases ws@.len() - i,
        {
            out.push(ws[i].clone());
            i = i + 1;
        }
    }
    out
}


/// Whether the nfqws launcher has started nfqws and not seen it end.
#[derive(Debug, Copy, Clone, PartialEq, Eq, Structural)]
pub enum LauncherState {
    Idle,
    Running,
}

/// What the launcher does on a request to start nfqws.
#[derive(Debug)]
pub enum LaunchDecision {
    /// Start nfqws with these arguments.
    Launch(Vec<String>),
    /// Refuse: nfqws was already started.
    AlreadyRunning,
}

/// The message with which a start is refused while nfqws runs.
pub const ALREADY_STARTED_MESSAGE: &'static str = "nfqws already started!";

/// The launcher state after a start request.
pub open spec fn state_after_start(state: LauncherState) -> LauncherState {
    LauncherState::Running
}

/// Whether a start request in this state launches nfqws.
pub open spec fn start_launches(state: LauncherState) -> bool {
    state == LauncherState::Idle
}

/// The launcher state after nfqws has ended.
pub open spec fn state_after_finish(state: LauncherState) -> LauncherState {
    LauncherState::Idle
}

/// A request to start nfqws with an option text: from `Idle` the launcher
/// starts it with `nfqws_argv(options)` and becomes `Running`; while
/// `Running` it refuses and stays `Running`.
pub fn request_start(state: LauncherState, options: &str) -> (res: (LauncherState, LaunchDecision))
    ensures
        res.0 == state_after_start(state),
        start_launches(state) <==> res.1 is Launch,
        res.1 matches LaunchDecision::Launch(argv) ==> {
            &&& argv@.len() == nfqws_argv(options@).len()
            &&& forall|k: int|
                0 <= k < argv@.len() ==> #[trigger] argv@[k]@ == nfqws_argv(options@)[k]
        },
{
    match state {
        LauncherState::Running => (LauncherState::Running, LaunchDecision::AlreadyRunning),
        LauncherState::Idle => (LauncherState::Running, LaunchDecision::Launch(nfqws_args(options))),
    }
}

/// The end of nfqws: the launcher becomes `Idle`.
pub fn nfqws_finished(state: LauncherState) -> (res: LauncherState)
    ensures
        res == state_after_finish(state),
{
    LauncherState::Idle
}

/// Only one nfqws runs at a time: a start that launches is followed by
/// refusals until nfqws ends, after which a start launches again.
pub proof fn lemma_single_nfqws(state: LauncherState)
    ensures
        start_launches(state) ==> !start_launches(state_after_start(state)),
        !start_launches(state_after_start(state_after_start(state))),
        start_launches(state_after_finish(state_after_start(state))),
{
}

/// Prefix of the status line.
pub const STATUS_PREFIX: &'static str = "zaprett is ";

/// Status word while nfqws runs.
pub const STATUS_WORKING: &'static str = "working";

/// Status word while nfqws does not run.
pub const STATUS_STOPPED: &'static str = "stopped";

/// Whether a process named `nfqws` is among the given process names.
pub fn nfqws_running(process_names: &Vec<String>) -> (res: bool)
    ensures
        res == exists|i: int| 0 <= i < process_names@.len() && #[trigger] process_names@[i]@
            == NFQWS_NAME@,
{
    let name = String::from_str(NFQWS_NAME);
    let mut i: usize = 0;
    while i < process_names.len()
        invariant
            0 <= i <= process_names@.len(),
            name@ == NFQWS_NAME@,
            forall|j: int| 0 <= j < i ==> #[trigger] process_names@[j]@ != NFQWS_NAME@,
        decreases process_names@.len() - i,
    {
        if process_names[i] == name {
            return true;
        }
        i = i + 1;
    }
    false
}

/// The status line: `zaprett is working` while nfqws runs, `zaprett is
/// stopped` otherwise.
pub fn status_line(running: bool) -> (res: String)
    ensures
        res@ == STATUS_PREFIX@ + if running {
            STATUS_WORKING@
        } else {
            STATUS_STOPPED@
        },
{
    let mut line = String::from_str(STATUS_PREFIX);
    if running {
        line.append(STATUS_WORKING);
    } else {
        line.append(STATUS_STOPPED);
    }
    line
}

/// The status line for the names of the running processes.
pub fn service_status(process_names: &Vec<String>) -> (res: String)
    ensures
        res@ == STATUS_PREFIX@ + if exists|i: int|
            0 <= i < process_names@.len() && #[trigger] process_names@[i]@ == NFQWS_NAME@ {
            STATUS_WORKING@
        } else {
            STATUS_STOPPED@
        },
{
    status_line(nfqws_running(process_names))
}

/// How an iptables rule is changed.
#[derive(Debug, Copy, Clone, PartialEq, Eq, Structural)]
pub enum RuleAction {
    /// Insert the rule at this position (counted from 1).
    Insert(i32),
    /// Append the rule to the chain.
    Append,
    /// Delete the rule from the chain.
    Delete,
}

/// A change of one iptables rule.
pub struct RuleChange {
    pub table: &'static str,
    pub chain: &'static str,
    pub rule: &'static str,
    pub action: RuleAction,
}

/// The rule that sends packets to the nfqws queue.
pub const NFQUEUE_RULE: &'static str = "-j NFQUEUE --queue-num 200 --queue-bypass";

/// The `mangle` table.
pub const MANGLE_TABLE: &'static str = "mangle";

/// The `filter` table.
pub const FILTER_TABLE: &'static str = "filter";

/// The `POSTROUTING` chain.
pub const POSTROUTING_CHAIN: &'static str = "POSTROUTING";

/// The `PREROUTING` chain.
pub const PREROUTING_CHAIN: &'static str = "PREROUTING";

/// The `FORWARD` chain.
pub const FORWARD_CHAIN: &'static str = "FORWARD";

/// The table and chain of each queue rule, in order.
pub open spec fn queue_rule_target(i: int) -> (Seq<char>, Seq<char>) {
    if i == 0 {
        (MANGLE_TABLE@, POSTROUTING_CHAIN@)
    } else if i == 1 {
        (MANGLE_TABLE@, PREROUTING_CHAIN@)
    } else {
        (FILTER_TABLE@, FORWARD_CHAIN@)
    }
}

/// The queue rule changes that send traffic to nfqws: the queue rule
/// inserted first in `mangle POSTROUTING` and in `mangle PREROUTING`, and
/// appended to `filter FORWARD`.
pub open spec fn is_queue_setup(changes: Seq<RuleChange>) -> bool {
    &&& changes.len() == 3
    &&& forall|i: int|
        0 <= i < 3 ==> (#[trigger] changes[i].table@, changes[i].chain@) == queue_rule_target(i)
            && changes[i].rule@ == NFQUEUE_RULE@
    &&& changes[0].action == RuleAction::Insert(1)
    &&& changes[1].action == RuleAction::Insert(1)
    &&& changes[2].action == RuleAction::Append
}

/// The queue rule changes that stop sending traffic to nfqws: the queue
/// rule deleted from `mangle POSTROUTING`, `mangle PREROUTING` and `filter
/// FORWARD`.
pub open spec fn is_queue_teardown(changes: Seq<RuleChange>) -> bool {
    &&& changes.len() == 3
    &&& forall|i: int|
        0 <= i < 3 ==> (#[trigger] changes[i].table@, changes[i].chain@) == queue_rule_target(i)
            && changes[i].rule@ == NFQUEUE_RULE@ && changes[i].action == RuleAction::Delete
}

/// The rule changes made when the service starts.
pub fn queue_setup_changes() -> (res: Vec<RuleChange>)
    ensures
        is_queue_setup(res@),
{
    let mut v: Vec<RuleChange> = Vec::new();
    v.push(
        RuleChange {
            table: MANGLE_TABLE,
            chain: POSTROUTING_CHAIN,
            rule: NFQUEUE_RULE,
            action: RuleAction::Insert(1),
        },
    );
    v.push(
        RuleChange {
            table: MANGLE_TABLE,
            chain: PREROUTING_CHAIN,
            rule: NFQUEUE_RULE,
            action: RuleAction::Insert(1),
        },
    );
    v.push(
        RuleChange {
            table: FILTER_TABLE,
            chain: FORWARD_CHAIN,
            rule: NFQUEUE_RULE,
            action: RuleAction::Append,
        },
    );
    v
}

/// The rule changes made when the service stops.
pub fn queue_teardown_changes() -> (res: Vec<RuleChange>)
    ensures
        is_queue_teardown(res@),
{
    let mut v: Vec<RuleChange> = Vec::new();
    v.push(
        RuleChange {
            table: MANGLE_TABLE,
            chain: POSTROUTING_CHAIN,
            rule: NFQUEUE_RULE,
            action: RuleAction::Delete,
        },
    );
    v.push(
        RuleChange {
            table: MANGLE_TABLE,
            chain: PREROUTING_CHAIN,
            rule: NFQUEUE_RULE,
            action: RuleAction::Delete,
        },
    );
    v.push(
        RuleChange {
            table: FILTER_TABLE,
            chain: FORWARD_CHAIN,
            rule: NFQUEUE_RULE,
            action: RuleAction::Delete,
        },
    );
    v
}

/// Stopping undoes starting: each rule the setup adds is deleted by the
/// teardown, from the same table and chain, and nothing else is deleted.
pub proof fn lemma_teardown_undoes_setup(setup: Seq<RuleChange>, teardown: Seq<RuleChange>)
    requires
        is_queue_setup(setup),
        is_queue_teardown(teardown),
    ensures
        setup.len() == teardown.len(),
        forall|i: int|
            0 <= i < setup.len() ==> {
                &&& (#[trigger] teardown[i]).table@ == setup[i].table@
                &&& teardown[i].chain@ == setup[i].chain@
                &&& teardown[i].rule@ == setup[i].rule@
                &&& teardown[i].action == RuleAction::Delete
                &&& setup[i].action != RuleAction::Delete
            },
{
    assert forall|i: int| 0 <= i < setup.len() implies {
        &&& (#[trigger] teardown[i]).table@ == setup[i].table@
        &&& teardown[i].chain@ == setup[i].chain@
        &&& teardown[i].rule@ == setup[i].rule@
        &&& teardown[i].action == RuleAction::Delete
        &&& setup[i].action != RuleAction::Delete
    } by {
        assert((setup[i].table@, setup[i].chain@) == queue_rule_target(i));
        assert((teardown[i].table@, teardown[i].chain@) == queue_rule_target(i));
    }
}

/// Pattern of the version in the output of `nfqws --version`.
pub const BIN_VERSION_PATTERN: &'static str = "version v[0-9.]+";

/// The version named by a matched `version vX.Y` text: its second word.
pub open spec fn version_of_match(matched: Seq<char>) -> Option<Seq<char>> {
    if words(matched).len() > 1 {
        Some(words(matched)[1])
    } else {
        None
    }
}

/// The version is reported for every match with at least two words: it is
/// then the second word (non-empty, without whitespace), whatever
/// characters it holds; only a match with fewer words reports none.
pub proof fn lemma_version_is_second_word(matched: Seq<char>)
    ensures
        version_of_match(matched) is Some <==> words(matched).len() >= 2,
        version_of_match(matched) matches Some(v) ==> {
            &&& v == words(matched)[1]
            &&& v.len() > 0
            &&& forall|i: int| 0 <= i < v.len() ==> !crate::text::is_white_space(#[trigger] v[i])
        },
{
    crate::text::lemma_words_shape(matched);
}

/// The second word of a matched version text, if it has one.
pub fn version_from_match(matched: &str) -> (res: Option<String>)
    ensures
        res matches Some(v) ==> version_of_match(matched@) == Some(v@),
        res is None ==> version_of_match(matched@) is None,
{
    let ws = split_whitespace(matched);
    if ws.len() > 1 {
        Some(ws[1].clone())
    } else {
        None
    }
}

/// The nfqws version reported in the output of `nfqws --version`: the
/// second word of the first match of `version v[0-9.]+`; `None` when the
/// pattern does not compile, does not match, or the match has no second
/// word.
pub fn bin_version_from_output(output: &str) -> (res: Option<String>)
    ensures
        !spec_regex_compiles(BIN_VERSION_PATTERN@) ==> res is None,
        spec_regex_compiles(BIN_VERSION_PATTERN@) ==> match spec_regex_find(
            BIN_VERSION_PATTERN@,
            output@,
        ) {
            Some(m) => match res {
                Some(v) => version_of_match(m) == Some(v@),
                None => version_of_match(m) is None,
            },
            None => res is None,
        },
{
    let pattern = match Pattern::new(BIN_VERSION_PATTERN) {
        Ok(p) => p,
        Err(_) => {
            return None;
        },
    };
    match pattern.find(output) {
        Some(m) => version_from_match(m.as_str()),
        None => None,
    }
}

} // verus!
