//! Command-line arguments: which command to run and with which settings.
use vstd::prelude::*;
use crate::digits::{parse_u128_range, parse_unsigned};
use crate::text::{chars_of, push_str, string_from_chars};

verus! {

/// Where the configuration lives unless `--config` says otherwise.
pub const DEFAULT_CONFIG_PATH: &'static str = "~/.tycho/depool-elect-config.json";

/// DePool minimum stake, in tokens, unless `--min-stake` says otherwise.
pub const DEFAULT_MIN_STAKE: &'static str = "100";

/// Validator assurance, in tokens, unless `--validator-assurance` says otherwise.
pub const DEFAULT_VALIDATOR_ASSURANCE: &'static str = "10000";

/// Percentage of rewards that goes to participants.
pub const DEFAULT_PARTICIPANT_REWARD_FRACTION: u8 = 95;

/// What the program is asked to do.
#[derive(Debug, Clone, PartialEq, Eq)]
pub enum Command {
    InitNew {
        force: bool,
        node_keys_path: Option<String>,
        min_stake: String,
        validator_assurance: String,
        target_stake: Option<String>,
        participant_reward_fraction: u8,
    },
    Status,
    Once,
    MigrateConfig,
    Loop,
    /// Print the usage and stop.
    Help,
}

/// The parsed command line.
#[derive(Debug, Clone, PartialEq, Eq)]
pub struct Cli {
    pub config_path: String,
    pub command: Command,
}

/// Why the command line is refused.
#[derive(Debug, Clone, PartialEq, Eq)]
pub enum CliError {
    /// The named option is the last argument and has no value.
    MissingValue(String),
    /// The value of `--participant-reward-fraction` is not a `u8`.
    InvalidRewardFraction,
    /// The argument is neither an option nor a command.
    UnknownArgument(String),
    /// No command was given.
    MissingCommand,
}

/// The commands that a scan can select.
#[derive(Debug, Clone, Copy, PartialEq, Eq, Structural)]
pub enum CommandKind {
    InitNew,
    Status,
    Once,
    MigrateConfig,
    Loop,
}

/// A command as text values.
pub enum CommandSpec {
    InitNew {
        force: bool,
        node_keys_path: Option<Seq<char>>,
        min_stake: Seq<char>,
        validator_assurance: Seq<char>,
        target_stake: Option<Seq<char>>,
        participant_reward_fraction: u8,
    },
    Status,
    Once,
    MigrateConfig,
    Loop,
    Help,
}

pub struct CliSpec {
    pub config_path: Seq<char>,
    pub command: CommandSpec,
}

pub enum CliFault {
    MissingValue(Seq<char>),
    InvalidRewardFraction,
    UnknownArgument(Seq<char>),
    MissingCommand,
}

pub open spec fn opt_view(o: Option<String>) -> Option<Seq<char>> {
    match o {
        Some(s) => Some(s@),
        None => None,
    }
}

impl View for Command {
    type V = CommandSpec;

    open spec fn view(&self) -> CommandSpec {
        match self {
            Command::InitNew {
                force,
                node_keys_path,
                min_stake,
                validator_assurance,
                target_stake,
                participant_reward_fraction,
            } => CommandSpec::InitNew {
                force: *force,
                node_keys_path: opt_view(*node_keys_path),
                min_stake: min_stake@,
                validator_assurance: validator_assurance@,
                target_stake: opt_view(*target_stake),
                participant_reward_fraction: *participant_reward_fraction,
            },
            Command::Status => CommandSpec::Status,
            Command::Once => CommandSpec::Once,
            Command::MigrateConfig => CommandSpec::MigrateConfig,
            Command::Loop => CommandSpec::Loop,
            Command::Help => CommandSpec::Help,
        }
    }
}

impl View for Cli {
    type V = CliSpec;

    open spec fn view(&self) -> CliSpec {
        CliSpec { config_path: self.config_path@, command: self.command@ }
    }
}

impl View for CliError {
    type V = CliFault;

    open spec fn view(&self) -> CliFault {
        match self {
            CliError::MissingValue(s) => CliFault::MissingValue(s@),
            CliError::InvalidRewardFraction => CliFault::InvalidRewardFraction,
            CliError::UnknownArgument(s) => CliFault::UnknownArgument(s@),
            CliError::MissingCommand => CliFault::MissingCommand,
        }
    }
}

/// `rest` joined onto `base` as `PathBuf::join` does on Unix: an absolute
/// `rest` replaces `base`; otherwise a `/` goes between them unless `base`
/// is empty or already ends with one.
pub open spec fn join_path(base: Seq<char>, rest: Seq<char>) -> Seq<char> {
    if rest.len() > 0 && rest[0] == '/' {
        rest
    } else if base.len() == 0 || base.last() == '/' {
        base + rest
    } else {
        base + seq!['/'] + rest
    }
}

/// A path that starts with `~/` resolved against the home directory, where
/// one is known; any other path as it is.
pub open spec fn spec_expand_home(path: Seq<char>, home: Option<Seq<char>>) -> Seq<char> {
    if path.len() >= 2 && path[0] == '~' && path[1] == '/' && home is Some {
        join_path(home->0, path.skip(2))
    } else {
        path
    }
}

/// Settings gathered while reading the arguments from left to right.
pub struct ScanState {
    pub config_path: Seq<char>,
    pub command: Option<CommandKind>,
    pub force: bool,
    pub min_stake: Seq<char>,
    pub validator_assurance: Seq<char>,
    pub target_stake: Option<Seq<char>>,
    pub node_keys_path: Option<Seq<char>>,
    pub fraction: u8,
}

/// Where reading the arguments ends.
pub enum ScanOutcome {
    Done(ScanState),
    Help(Seq<char>),
    Fail(CliFault),
}

/// What `str::parse::<u8>` gives.
pub open spec fn spec_parse_u8(s: Seq<char>) -> Option<u8> {
    match parse_unsigned(s) {
        Some(v) => if v <= 255 {
            Some(v as u8)
        } else {
            None
        },
        None => None,
    }
}

/// Reads the arguments from position `i` on, with the settings `st`
/// gathered so far. An option takes the next argument as its value; the
/// last value given for an option wins; `help` stops the reading.
pub open spec fn scan(
    args: Seq<Seq<char>>,
    home: Option<Seq<char>>,
    i: nat,
    st: ScanState,
) -> ScanOutcome
    decreases args.len() - i,
{
    if i >= args.len() {
        ScanOutcome::Done(st)
    } else {
        let a = args[i as int];
        let has_value = i + 1 < args.len();
        let value = args[i + 1 as int];
        if a == "--config"@ {
            if has_value {
                scan(
                    args,
                    home,
                    i + 2,
                    ScanState { config_path: spec_expand_home(value, home), ..st },
                )
            } else {
                ScanOutcome::Fail(CliFault::MissingValue(a))
            }
        } else if a == "--force"@ {
            scan(args, home, i + 1, ScanState { force: true, ..st })
        } else if a == "--min-stake"@ {
            if has_value {
                scan(args, home, i + 2, ScanState { min_stake: value, ..st })
            } else {
                ScanOutcome::Fail(CliFault::MissingValue(a))
            }
        } else if a == "--validator-assurance"@ {
            if has_value {
                scan(args, home, i + 2, ScanState { validator_assurance: value, ..st })
            } else {
                ScanOutcome::Fail(CliFault::MissingValue(a))
            }
        } else if a == "--target-stake"@ {
            if has_value {
                scan(args, home, i + 2, ScanState { target_stake: Some(value), ..st })
            } else {
                ScanOutcome::Fail(CliFault::MissingValue(a))
            }
        } else if a == "--node-keys"@ {
            if has_value {
                scan(
                    args,
                    home,
                    i + 2,
                    ScanState { node_keys_path: Some(spec_expand_home(value, home)), ..st },
                )
            } else {
                ScanOutcome::Fail(CliFault::MissingValue(a))
            }
        } else if a == "--participant-reward-fraction"@ {
            if !has_value {
                ScanOutcome::Fail(CliFault::MissingValue(a))
            } else if spec_parse_u8(value) is None {
                ScanOutcome::Fail(CliFault::InvalidRewardFraction)
            } else {
                scan(args, home, i + 2, ScanState { fraction: spec_parse_u8(value)->0, ..st })
            }
        } else if a == "init-new"@ {
            scan(args, home, i + 1, ScanState { command: Some(CommandKind::InitNew), ..st })
        } else if a == "status"@ {
            scan(args, home, i + 1, ScanState { command: Some(CommandKind::Status), ..st })
        } else if a == "once"@ {
            scan(args, home, i + 1, ScanState { command: Some(CommandKind::Once), ..st })
        } else if a == "migrate-config"@ {
            scan(args, home, i + 1, ScanState { command: Some(CommandKind::MigrateConfig), ..st })
        } else if a == "loop"@ {
            scan(args, home, i + 1, ScanState { command: Some(CommandKind::Loop), ..st })
        } else if a == "help"@ || a == "--help"@ || a == "-h"@ {
            ScanOutcome::Help(st.config_path)
        } else {
            ScanOutcome::Fail(CliFault::UnknownArgument(a))
        }
    }
}

/// The settings before any argument is read.
pub open spec fn initial_scan_state(home: Option<Seq<char>>) -> ScanState {
    ScanState {
        config_path: spec_expand_home(DEFAULT_CONFIG_PATH@, home),
        command: None,
        force: false,
        min_stake: DEFAULT_MIN_STAKE@,
        validator_assurance: DEFAULT_VALIDATOR_ASSURANCE@,
        target_stake: None,
        node_keys_path: None,
        fraction: DEFAULT_PARTICIPANT_REWARD_FRACTION,
    }
}

/// The command line that `args` (the program name first) asks for.
pub open spec fn spec_parse_cli(args: Seq<Seq<char>>, home: Option<Seq<char>>) -> Result<
    CliSpec,
    CliFault,
> {
    match scan(args, home, 1, initial_scan_state(home)) {
        ScanOutcome::Fail(e) => Err(e),
        ScanOutcome::Help(p) => Ok(CliSpec { config_path: p, command: CommandSpec::Help }),
        ScanOutcome::Done(st) => match st.command {
            None => Err(CliFault::MissingCommand),
            Some(k) => Ok(
                CliSpec {
                    config_path: st.config_path,
                    command: match k {
                        CommandKind::InitNew => CommandSpec::InitNew {
                            force: st.force,
                            node_keys_path: st.node_keys_path,
                            min_stake: st.min_stake,
                            validator_assurance: st.validator_assurance,
                            target_stake: st.target_stake,
                            participant_reward_fraction: st.fraction,
                        },
                        CommandKind::Status => CommandSpec::Status,
                        CommandKind::Once => CommandSpec::Once,
                        CommandKind::MigrateConfig => CommandSpec::MigrateConfig,
                        CommandKind::Loop => CommandSpec::Loop,
                    },
                },
            ),
        },
    }
}

pub open spec fn args_view(args: Seq<String>) -> Seq<Seq<char>> {
    args.map_values(|s: String| s@)
}

/// Whether two texts are the same.
pub fn str_equals(a: &str, b: &str) -> (r: bool)
    ensures
        r == (a@ == b@),
{
    let n = a.unicode_len();
    let m = b.unicode_len();
    if n != m {
        return false;
    }
    let mut i: usize = 0;
    while i < n
        invariant
            n == a@.len(),
            m == b@.len(),
            n == m,
            i <= n,
            forall|k: int| 0 <= k < i ==> a@[k] == b@[k],
        decreases n - i,
    {
        if a.get_char(i) != b.get_char(i) {
            return false;
        }
        i = i + 1;
    }
    proof {
        assert(a@ =~= b@);
    }
    true
}

/// Reads `s` as `str::parse::<u8>` does.
pub fn parse_u8(s: &str) -> (r: Option<u8>)
    ensures
        r == spec_parse_u8(s@),
{
    let chars = chars_of(s);
    proof {
        assert(chars@.subrange(0, chars.len() as int) =~= s@);
    }
    match parse_u128_range(&chars, 0, chars.len()) {
        Some(v) => if v <= 255 {
            Some(v as u8)
        } else {
            None
        },
        None => None,
    }
}

/// Resolves a leading `~/` against the home directory.
pub fn expand_home(path: &str, home: &Option<String>) -> (r: String)
    ensures
        r@ == spec_expand_home(path@, opt_view(*home)),
{
    let chars = chars_of(path);
    match home {
        Some(h) => {
            if chars.len() >= 2 && chars[0] == '~' && chars[1] == '/' {
                let ghost rest = path@.skip(2);
                let hc = chars_of(h.as_str());
                let mut out: Vec<char> = Vec::new();
                if chars.len() > 2 && chars[2] == '/' {
                    // An absolute remainder replaces the home directory.
                } else {
                    push_str(&mut out, h.as_str());
                    if hc.len() > 0 && hc[hc.len() - 1] != '/' {
                        out.push('/');
                    }
                }
                let mut i: usize = 2;
                let ghost before = out@;
                while i < chars.len()
                    invariant
                        2 <= i <= chars.len(),
                        chars@ == path@,
                        rest == path@.skip(2),
                        out@ == before + rest.take(i - 2),
                    decreases chars.len() - i,
                {
                    out.push(chars[i]);
                    proof {
                        assert(rest.take(i - 1) =~= rest.take(i - 2).push(chars@[i as int]));
                    }
                    i = i + 1;
                }
                proof {
                    assert(rest.take(i - 2) =~= rest);
                    if rest.len() > 0 && rest[0] == '/' {
                        assert(out@ =~= join_path(h@, rest));
                    } else if h@.len() == 0 || h@.last() == '/' {
                        assert(out@ =~= join_path(h@, rest));
                    } else {
                        assert(out@ =~= join_path(h@, rest));
                    }
                }
                return string_from_chars(&out);
            }
        },
        None => {},
    }
    string_from_chars(&chars)
}

/// The value that follows an option, or the error that names the option.
pub fn arg_value(args: &[String], index: usize, name: &str) -> (r: Result<String, CliError>)
    ensures
        index < args.len() ==> (r matches Ok(v) && v@ == args@[index as int]@),
        index >= args.len() ==> (r matches Err(CliError::MissingValue(n)) && n@ == name@),
{
    if index < args.len() {
        Ok(args[index].clone())
    } else {
        let mut out: Vec<char> = Vec::new();
        push_str(&mut out, name);
        Err(CliError::MissingValue(string_from_chars(&out)))
    }
}

/// The path that follows an option, with a leading `~/` resolved.
pub fn arg_path(args: &[String], index: usize, name: &str, home: &Option<String>) -> (r: Result<
    String,
    CliError,
>)
    ensures
        index < args.len() ==> (r matches Ok(v) && v@ == spec_expand_home(
            args@[index as int]@,
            opt_view(*home),
        )),
        index >= args.len() ==> (r matches Err(CliError::MissingValue(n)) && n@ == name@),
{
    let v = arg_value(args, index, name)?;
    Ok(expand_home(v.as_str(), home))
}

pub open spec fn result_view(r: Result<Cli, CliError>) -> Result<CliSpec, CliFault> {
    match r {
        Ok(c) => Ok(c@),
        Err(e) => Err(e@),
    }
}

/// The scan settings that the parser's variables hold.
pub open spec fn state_view(
    config_path: String,
    command: Option<CommandKind>,
    force: bool,
    min_stake: String,
    validator_assurance: String,
    target_stake: Option<String>,
    node_keys_path: Option<String>,
    fraction: u8,
) -> ScanState {
    ScanState {
        config_path: config_path@,
        command,
        force,
        min_stake: min_stake@,
        validator_assurance: validator_assurance@,
        target_stake: opt_view(target_stake),
        node_keys_path: opt_view(node_keys_path),
        fraction,
    }
}

impl Cli {
    /// Reads the command line; `args[0]` is the program name and `home`
    /// the home directory, where one is set.
    pub fn parse(args: &Vec<String>, home: &Option<String>) -> (r: Result<Cli, CliError>)
        ensures
            result_view(r) == spec_parse_cli(args_view(args@), opt_view(*home)),
    {
        let ghost av = args_view(args@);
        let ghost hv = opt_view(*home);
        let mut config_path = expand_home(DEFAULT_CONFIG_PATH, home);
        let mut command: Option<CommandKind> = None;
        let mut force = false;
        let mut min_stake = String::from_str(DEFAULT_MIN_STAKE);
        let mut validator_assurance = String::from_str(DEFAULT_VALIDATOR_ASSURANCE);
        let mut target_stake: Option<String> = None;
        let mut node_keys_path: Option<String> = None;
        let mut fraction: u8 = DEFAULT_PARTICIPANT_REWARD_FRACTION;
        let ghost start = state_view(
            config_path,
            command,
            force,
            min_stake,
            validator_assurance,
            target_stake,
            node_keys_path,
            fraction,
        );
        proof {
            assert(start == initial_scan_state(hv));
        }
        let mut i: usize = 1;
        while i < args.len()
            invariant
                av == args_view(args@),
                av.len() == args.len(),
                hv == opt_view(*home),
                1 <= i,
                scan(av, hv, 1, initial_scan_state(hv)) == scan(
                    av,
                    hv,
                    i as nat,
                    state_view(
                        config_path,
                        command,
                        force,
                        min_stake,
                        validator_assurance,
                        target_stake,
                        node_keys_path,
                        fraction,
                    ),
                ),
            decreases args.len() - i,
        {
            let a = args[i].as_str();
            proof {
                assert(av[i as int] == args@[i as int]@);
                if i + 1 < args.len() {
                    assert(av[i + 1] == args@[i + 1]@);
                }
            }
            if str_equals(a, "--config") {
                i = i + 1;
                config_path = arg_path(args.as_slice(), i, "--config", home)?;
            } else if str_equals(a, "--force") {
                force = true;
            } else if str_equals(a, "--min-stake") {
                i = i + 1;
                min_stake = arg_value(args.as_slice(), i, "--min-stake")?;
            } else if str_equals(a, "--validator-assurance") {
                i = i + 1;
                validator_assurance = arg_value(args.as_slice(), i, "--validator-assurance")?;
            } else if str_equals(a, "--target-stake") {
                i = i + 1;
                target_stake = Some(arg_value(args.as_slice(), i, "--target-stake")?);
            } else if str_equals(a, "--node-keys") {
                i = i + 1;
                node_keys_path = Some(arg_path(args.as_slice(), i, "--node-keys", home)?);
            } else if str_equals(a, "--participant-reward-fraction") {
                i = i + 1;
                let v = arg_value(args.as_slice(), i, "--participant-reward-fraction")?;
                match parse_u8(v.as_str()) {
                    Some(f) => {
                        fraction = f;
                    },
                    None => {
                        return Err(CliError::InvalidRewardFraction);
                    },
                }
            } else if str_equals(a, "init-new") {
                command = Some(CommandKind::InitNew);
            } else if str_equals(a, "status") {
                command = Some(CommandKind::Status);
            } else if str_equals(a, "once") {
                command = Some(CommandKind::Once);
            } else if str_equals(a, "migrate-config") {
                command = Some(CommandKind::MigrateConfig);
            } else if str_equals(a, "loop") {
                command = Some(CommandKind::Loop);
            } else if str_equals(a, "help") || str_equals(a, "--help") || str_equals(a, "-h") {
                return Ok(Cli { config_path, command: Command::Help });
            } else {
                let mut out: Vec<char> = Vec::new();
                push_str(&mut out, a);
                return Err(CliError::UnknownArgument(string_from_chars(&out)));
            }
            i = i + 1;
        }
        match command {
            None => Err(CliError::MissingCommand),
            Some(k) => {
                let command = match k {
                    CommandKind::InitNew => Command::InitNew {
                        force,
                        node_keys_path,
                        min_stake,
                        validator_assurance,
                        target_stake,
                        participant_reward_fraction: fraction,
                    },
                    CommandKind::Status => Command::Status,
                    CommandKind::Once => Command::Once,
                    CommandKind::MigrateConfig => Command::MigrateConfig,
                    CommandKind::Loop => Command::Loop,
                };
                Ok(Cli { config_path, command })
            },
        }
    }
}

/// Reading one more argument after a list that reads without error goes on
/// from where the reading of that list ended.
pub proof fn lemma_scan_push(
    args: Seq<Seq<char>>,
    home: Option<Seq<char>>,
    i: nat,
    st: ScanState,
    w: Seq<char>,
)
    requires
        i <= args.len(),
        scan(args, home, i, st) is Done,
    ensures
        scan(args.push(w), home, i, st) == scan(
            args.push(w),
            home,
            args.len(),
            scan(args, home, i, st)->Done_0,
        ),
    decreases args.len() - i,
{
    if i < args.len() {
        let a = args[i as int];
        let b = args.push(w);
        assert(b[i as int] == a);
        let has_value = i + 1 < args.len();
        let value = args[i + 1 as int];
        if has_value {
            assert(b[i + 1 as int] == value);
        }
        if a == "--config"@ {
            lemma_scan_push(
                args,
                home,
                i + 2,
                ScanState { config_path: spec_expand_home(value, home), ..st },
                w,
            );
        } else if a == "--force"@ {
            lemma_scan_push(args, home, i + 1, ScanState { force: true, ..st }, w);
        } else if a == "--min-stake"@ {
            lemma_scan_push(args, home, i + 2, ScanState { min_stake: value, ..st }, w);
        } else if a == "--validator-assurance"@ {
            lemma_scan_push(args, home, i + 2, ScanState { validator_assurance: value, ..st }, w);
        } else if a == "--target-stake"@ {
            lemma_scan_push(args, home, i + 2, ScanState { target_stake: Some(value), ..st }, w);
        } else if a == "--node-keys"@ {
            lemma_scan_push(
                args,
                home,
                i + 2,
                ScanState { node_keys_path: Some(spec_expand_home(value, home)), ..st },
                w,
            );
        } else if a == "--participant-reward-fraction"@ {
            lemma_scan_push(
                args,
                home,
                i + 2,
                ScanState { fraction: spec_parse_u8(value)->0, ..st },
                w,
            );
        } else if a == "init-new"@ {
            lemma_scan_push(args, home, i + 1, ScanState { command: Some(CommandKind::InitNew), ..st }, w);
        } else if a == "status"@ {
            lemma_scan_push(args, home, i + 1, ScanState { command: Some(CommandKind::Status), ..st }, w);
        } else if a == "once"@ {
            lemma_scan_push(args, home, i + 1, ScanState { command: Some(CommandKind::Once), ..st }, w);
        } else if a == "migrate-config"@ {
            lemma_scan_push(
                args,
                home,
                i + 1,
                ScanState { command: Some(CommandKind::MigrateConfig), ..st },
                w,
            );
        } else if a == "loop"@ {
            lemma_scan_push(args, home, i + 1, ScanState { command: Some(CommandKind::Loop), ..st }, w);
        }
    }
}

/// The words of the commands differ from each other, from the options and
/// from the words that ask for help.
pub proof fn lemma_command_words_distinct()
    ensures
        "init-new"@ != "--config"@,
        "init-new"@ != "--force"@,
        "init-new"@ != "--min-stake"@,
        "init-new"@ != "--validator-assurance"@,
        "init-new"@ != "--target-stake"@,
        "init-new"@ != "--node-keys"@,
        "init-new"@ != "--participant-reward-fraction"@,
        "init-new"@ != "help"@,
        "init-new"@ != "--help"@,
        "init-new"@ != "-h"@,
        "status"@ != "--config"@,
        "status"@ != "--force"@,
        "status"@ != "--min-stake"@,
        "status"@ != "--validator-assurance"@,
        "status"@ != "--target-stake"@,
        "status"@ != "--node-keys"@,
        "status"@ != "--participant-reward-fraction"@,
        "status"@ != "init-new"@,
        "status"@ != "help"@,
        "status"@ != "--help"@,
        "status"@ != "-h"@,
        "once"@ != "--config"@,
        "once"@ != "--force"@,
        "once"@ != "--min-stake"@,
        "once"@ != "--validator-assurance"@,
        "once"@ != "--target-stake"@,
        "once"@ != "--node-keys"@,
        "once"@ != "--participant-reward-fraction"@,
        "once"@ != "init-new"@,
        "once"@ != "status"@,
        "once"@ != "help"@,
        "once"@ != "--help"@,
        "once"@ != "-h"@,
        "migrate-config"@ != "--config"@,
        "migrate-config"@ != "--force"@,
        "migrate-config"@ != "--min-stake"@,
        "migrate-config"@ != "--validator-assurance"@,
        "migrate-config"@ != "--target-stake"@,
        "migrate-config"@ != "--node-keys"@,
        "migrate-config"@ != "--participant-reward-fraction"@,
        "migrate-config"@ != "init-new"@,
        "migrate-config"@ != "status"@,
        "migrate-config"@ != "once"@,
        "migrate-config"@ != "help"@,
        "migrate-config"@ != "--help"@,
        "migrate-config"@ != "-h"@,
        "loop"@ != "--config"@,
        "loop"@ != "--force"@,
        "loop"@ != "--min-stake"@,
        "loop"@ != "--validator-assurance"@,
        "loop"@ != "--target-stake"@,
        "loop"@ != "--node-keys"@,
        "loop"@ != "--participant-reward-fraction"@,
        "loop"@ != "init-new"@,
        "loop"@ != "status"@,
        "loop"@ != "once"@,
        "loop"@ != "migrate-config"@,
        "loop"@ != "help"@,
        "loop"@ != "--help"@,
        "loop"@ != "-h"@,
{
    reveal_strlit("--config");
    reveal_strlit("--force");
    reveal_strlit("--min-stake");
    reveal_strlit("--validator-assurance");
    reveal_strlit("--target-stake");
    reveal_strlit("--node-keys");
    reveal_strlit("--participant-reward-fraction");
    reveal_strlit("init-new");
    reveal_strlit("status");
    reveal_strlit("once");
    reveal_strlit("migrate-config");
    reveal_strlit("loop");
    reveal_strlit("help");
    reveal_strlit("--help");
    reveal_strlit("-h");
    assert("init-new"@[0] != "--config"@[0]);
    assert("init-new"@.len() != "--force"@.len());
    assert("init-new"@.len() != "--min-stake"@.len());
    assert("init-new"@.len() != "--validator-assurance"@.len());
    assert("init-new"@.len() != "--target-stake"@.len());
    assert("init-new"@.len() != "--node-keys"@.len());
    assert("init-new"@.len() != "--participant-reward-fraction"@.len());
    assert("init-new"@.len() != "help"@.len());
    assert("init-new"@.len() != "--help"@.len());
    assert("init-new"@.len() != "-h"@.len());
    assert("status"@.len() != "--config"@.len());
    assert("status"@.len() != "--force"@.len());
    assert("status"@.len() != "--min-stake"@.len());
    assert("status"@.len() != "--validator-assurance"@.len());
    assert("status"@.len() != "--target-stake"@.len());
    assert("status"@.len() != "--node-keys"@.len());
    assert("status"@.len() != "--participant-reward-fraction"@.len());
    assert("status"@.len() != "init-new"@.len());
    assert("status"@.len() != "help"@.len());
    assert("status"@[0] != "--help"@[0]);
    assert("status"@.len() != "-h"@.len());
    assert("once"@.len() != "--config"@.len());
    assert("once"@.len() != "--force"@.len());
    assert("once"@.len() != "--min-stake"@.len());
    assert("once"@.len() != "--validator-assurance"@.len());
    assert("once"@.len() != "--target-stake"@.len());
    assert("once"@.len() != "--node-keys"@.len());
    assert("once"@.len() != "--participant-reward-fraction"@.len());
    assert("once"@.len() != "init-new"@.len());
    assert("once"@.len() != "status"@.len());
    assert("once"@[0] != "help"@[0]);
    assert("once"@.len() != "--help"@.len());
    assert("once"@.len() != "-h"@.len());
    assert("migrate-config"@.len() != "--config"@.len());
    assert("migrate-config"@.len() != "--force"@.len());
    assert("migrate-config"@.len() != "--min-stake"@.len());
    assert("migrate-config"@.len() != "--validator-assurance"@.len());
    assert("migrate-config"@[0] != "--target-stake"@[0]);
    assert("migrate-config"@.len() != "--node-keys"@.len());
    assert("migrate-config"@.len() != "--participant-reward-fraction"@.len());
    assert("migrate-config"@.len() != "init-new"@.len());
    assert("migrate-config"@.len() != "status"@.len());
    assert("migrate-config"@.len() != "once"@.len());
    assert("migrate-config"@.len() != "help"@.len());
    assert("migrate-config"@.len() != "--help"@.len());
    assert("migrate-config"@.len() != "-h"@.len());
    assert("loop"@.len() != "--config"@.len());
    assert("loop"@.len() != "--force"@.len());
    assert("loop"@.len() != "--min-stake"@.len());
    assert("loop"@.len() != "--validator-assurance"@.len());
    assert("loop"@.len() != "--target-stake"@.len());
    assert("loop"@.len() != "--node-keys"@.len());
    assert("loop"@.len() != "--participant-reward-fraction"@.len());
    assert("loop"@.len() != "init-new"@.len());
    assert("loop"@.len() != "status"@.len());
    assert("loop"@[0] != "once"@[0]);
    assert("loop"@.len() != "migrate-config"@.len());
    assert("loop"@[0] != "help"@[0]);
    assert("loop"@.len() != "--help"@.len());
    assert("loop"@.len() != "-h"@.len());
}

} // verus!
