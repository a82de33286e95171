//! The configuration: whether the volume is shown as a percentage, the icons
//! and the volume levels at which they apply, where the stylesheet is, and
//! which file the configuration was read from. Also the protocol by which a
//! configuration is set up: the decisions are made here, step by step, and
//! the caller performs the file-system work that each step asks for.

use vstd::prelude::*;
use vstd::std_specs::cmp::PartialEqSpecImpl;

use crate::text::char_string;
use crate::paths::{joined_path, join_path, opt_chars, parent_of, parent_path, user_config_dir};

verus! {

/// One icon and the volume level that it covers. The level is an IEEE 754
/// double-precision number, carried as its bit pattern.
#[derive(Clone, Copy, Debug)]
pub struct IconThreshold {
    pub icon: char,
    pub level_bits: u64,
}

/// The double-precision bit pattern `b` is a NaN.
pub open spec fn binary64_is_nan(b: u64) -> bool {
    (b & 0x7ff0_0000_0000_0000u64) == 0x7ff0_0000_0000_0000u64 && (b
        & 0x000f_ffff_ffff_ffffu64) != 0
}

/// The double-precision bit pattern `b` is a zero of either sign.
pub open spec fn binary64_is_zero(b: u64) -> bool {
    (b & 0x7fff_ffff_ffff_ffffu64) == 0
}

/// IEEE 754 equality of two double-precision numbers given by their bit
/// patterns: no NaN equals anything, the two zeros are equal, and other
/// numbers are equal when their patterns are.
pub open spec fn binary64_eq(a: u64, b: u64) -> bool {
    &&& !binary64_is_nan(a)
    &&& !binary64_is_nan(b)
    &&& (a == b || (binary64_is_zero(a) && binary64_is_zero(b)))
}

/// Two thresholds are equal: same icon and equal levels.
pub open spec fn same_threshold(a: IconThreshold, b: IconThreshold) -> bool {
    a.icon == b.icon && binary64_eq(a.level_bits, b.level_bits)
}

fn binary64_eq_exec(a: u64, b: u64) -> (r: bool)
    ensures
        r == binary64_eq(a, b),
{
    let a_nan = (a & 0x7ff0_0000_0000_0000u64) == 0x7ff0_0000_0000_0000u64 && (a
        & 0x000f_ffff_ffff_ffffu64) != 0;
    let b_nan = (b & 0x7ff0_0000_0000_0000u64) == 0x7ff0_0000_0000_0000u64 && (b
        & 0x000f_ffff_ffff_ffffu64) != 0;
    let zeros = (a & 0x7fff_ffff_ffff_ffffu64) == 0 && (b & 0x7fff_ffff_ffff_ffffu64) == 0;
    !a_nan && !b_nan && (a == b || zeros)
}

impl PartialEq for IconThreshold {
    fn eq(&self, other: &Self) -> (r: bool) {
        self.icon == other.icon && binary64_eq_exec(self.level_bits, other.level_bits)
    }
}

impl PartialEqSpecImpl for IconThreshold {
    open spec fn obeys_eq_spec() -> bool {
        true
    }

    open spec fn eq_spec(&self, other: &IconThreshold) -> bool {
        same_threshold(*self, *other)
    }
}

/// The bit pattern of the double-precision number 0.15.
pub const LEVEL_0_15_BITS: u64 = 0x3fc3_3333_3333_3333u64;

/// The bit pattern of the double-precision number 0.425.
pub const LEVEL_0_425_BITS: u64 = 0x3fdb_3333_3333_3333u64;

/// The icon for a low volume.
pub const ICON_VOLUME_LOW: char = '\u{f026}';

/// The icon for a medium volume.
pub const ICON_VOLUME_MEDIUM: char = '\u{f027}';

/// The icon for a high volume.
pub const ICON_VOLUME_HIGH: char = '\u{f028}';

/// The default thresholds: the low icon for the first 0.15 of the range,
/// the medium icon for the next 0.425 and the high icon for the last 0.425.
pub open spec fn default_thresholds() -> Seq<IconThreshold> {
    seq![
        IconThreshold { icon: ICON_VOLUME_LOW, level_bits: LEVEL_0_15_BITS },
        IconThreshold { icon: ICON_VOLUME_MEDIUM, level_bits: LEVEL_0_425_BITS },
        IconThreshold { icon: ICON_VOLUME_HIGH, level_bits: LEVEL_0_425_BITS },
    ]
}

/// The default thresholds (see the spec function of the same name).
pub fn volume_icons() -> (v: Vec<IconThreshold>)
    ensures
        v@ == default_thresholds(),
{
    vec![
        IconThreshold { icon: ICON_VOLUME_LOW, level_bits: LEVEL_0_15_BITS },
        IconThreshold { icon: ICON_VOLUME_MEDIUM, level_bits: LEVEL_0_425_BITS },
        IconThreshold { icon: ICON_VOLUME_HIGH, level_bits: LEVEL_0_425_BITS },
    ]
}

/// Whether the volume reaches threshold `k`: `within[k]`, which says whether
/// the volume is at most the running total of the levels of thresholds
/// `0..=k`. A threshold past the end of `within` is not reached.
pub open spec fn reached(within: Seq<bool>, k: int) -> bool {
    0 <= k < within.len() && within[k]
}

/// The icon for a volume, from index `i` on: the icon of the first
/// threshold the volume reaches; past the last threshold, the last icon;
/// with no thresholds at all, a space.
pub open spec fn icon_from(ts: Seq<IconThreshold>, within: Seq<bool>, i: int) -> char
    decreases ts.len() - i,
{
    if i < 0 || i >= ts.len() {
        if ts.len() > 0 {
            ts.last().icon
        } else {
            ' '
        }
    } else if reached(within, i) {
        ts[i].icon
    } else {
        icon_from(ts, within, i + 1)
    }
}

/// The position, among `n` thresholds, of the one whose icon is chosen,
/// searching from index `i`: the first reached, else the last.
pub open spec fn chosen_from(within: Seq<bool>, n: int, i: int) -> int
    decreases n - i,
{
    if i < 0 || i >= n {
        n - 1
    } else if reached(within, i) {
        i
    } else {
        chosen_from(within, n, i + 1)
    }
}

/// The position of the threshold whose icon is chosen among `n`.
pub open spec fn chosen_index(within: Seq<bool>, n: int) -> int {
    chosen_from(within, n, 0)
}

/// The icon for a volume (see `icon_from`).
pub open spec fn icon_for(ts: Seq<IconThreshold>, within: Seq<bool>) -> char {
    icon_from(ts, within, 0)
}

/// The icon for a volume, given for each threshold whether the volume is at
/// most the running total of the levels up to and including it.
pub fn pick_icon(thresholds: &Vec<IconThreshold>, within: &Vec<bool>) -> (c: char)
    ensures
        c == icon_for(thresholds@, within@),
{
    let n = thresholds.len();
    let mut i: usize = 0;
    while i < n
        invariant
            n == thresholds.len(),
            i <= n,
            icon_for(thresholds@, within@) == icon_from(thresholds@, within@, i as int),
        decreases n - i,
    {
        if i < within.len() && within[i] {
            return thresholds[i].icon;
        }
        i = i + 1;
    }
    if n > 0 {
        thresholds[n - 1].icon
    } else {
        ' '
    }
}

/// The chosen icon is that of the threshold at `chosen_from`, from any
/// starting index on.
proof fn lemma_icon_from_is_chosen(ts: Seq<IconThreshold>, within: Seq<bool>, i: int)
    requires
        0 <= i,
        ts.len() > 0,
    ensures
        i < ts.len() ==> i <= chosen_from(within, ts.len() as int, i),
        0 <= chosen_from(within, ts.len() as int, i) < ts.len(),
        icon_from(ts, within, i) == ts[chosen_from(within, ts.len() as int, i)].icon,
    decreases ts.len() - i,
{
    if i < ts.len() && !reached(within, i) {
        lemma_icon_from_is_chosen(ts, within, i + 1);
    }
}

/// With at least one threshold, the icon chosen is the icon of one of the
/// thresholds (never the space): that at `chosen_index`.
pub proof fn lemma_icon_is_a_threshold_icon(ts: Seq<IconThreshold>, within: Seq<bool>)
    requires
        ts.len() > 0,
    ensures
        0 <= chosen_index(within, ts.len() as int) < ts.len(),
        icon_for(ts, within) == ts[chosen_index(within, ts.len() as int)].icon,
{
    lemma_icon_from_is_chosen(ts, within, 0);
}

proof fn lemma_chosen_from_monotone(quiet: Seq<bool>, loud: Seq<bool>, n: int, i: int)
    requires
        0 <= i,
        forall|k: int| 0 <= k < n && #[trigger] reached(loud, k) ==> reached(quiet, k),
    ensures
        chosen_from(quiet, n, i) <= chosen_from(loud, n, i),
        i < n ==> i <= chosen_from(loud, n, i) <= n - 1,
        i < n ==> i <= chosen_from(quiet, n, i) <= n - 1,
    decreases n - i,
{
    if i < n {
        lemma_chosen_from_monotone(quiet, loud, n, i + 1);
    }
}

/// The icon only moves to later thresholds as the volume rises: when every
/// threshold that the louder volume reaches is also reached by the quieter
/// one (as happens when both are compared with the same running totals), the
/// louder volume's icon stands no earlier in the list than the quieter's.
pub proof fn lemma_icon_monotone(ts: Seq<IconThreshold>, quiet: Seq<bool>, loud: Seq<bool>)
    requires
        forall|k: int| 0 <= k < ts.len() && #[trigger] reached(loud, k) ==> reached(quiet, k),
    ensures
        chosen_index(quiet, ts.len() as int) <= chosen_index(loud, ts.len() as int),
{
    lemma_chosen_from_monotone(quiet, loud, ts.len() as int, 0);
}

proof fn lemma_icon_from_first_reached(ts: Seq<IconThreshold>, within: Seq<bool>, k: int, i: int)
    requires
        0 <= i <= k < ts.len(),
        k < within.len() && within[k],
        forall|j: int| 0 <= j < k && j < within.len() ==> !within[j],
    ensures
        icon_from(ts, within, i) == ts[k].icon,
        chosen_from(within, ts.len() as int, i) == k,
    decreases k - i,
{
    if i < k {
        lemma_icon_from_first_reached(ts, within, k, i + 1);
    }
}

/// For any number of thresholds, the icon is that of the first threshold
/// the volume reaches (`within[k]`, with no earlier `within[j]`), and that
/// threshold is the one chosen.
pub proof fn lemma_icon_is_first_reached(ts: Seq<IconThreshold>, within: Seq<bool>, k: int)
    requires
        0 <= k < ts.len(),
        k < within.len() && within[k],
        forall|j: int| 0 <= j < k && j < within.len() ==> !within[j],
    ensures
        icon_for(ts, within) == ts[k].icon,
        chosen_index(within, ts.len() as int) == k,
{
    lemma_icon_from_first_reached(ts, within, k, 0);
}

proof fn lemma_icon_from_none_reached(ts: Seq<IconThreshold>, within: Seq<bool>, i: int)
    requires
        0 <= i,
        ts.len() > 0,
        forall|j: int| 0 <= j < ts.len() && j < within.len() ==> !within[j],
    ensures
        icon_from(ts, within, i) == ts[ts.len() - 1].icon,
    decreases ts.len() - i,
{
    if i < ts.len() {
        lemma_icon_from_none_reached(ts, within, i + 1);
    }
}

/// When the volume reaches no threshold (it exceeds the total of all the
/// levels), the icon is that of the last threshold.
pub proof fn lemma_icon_when_none_reached(ts: Seq<IconThreshold>, within: Seq<bool>)
    requires
        ts.len() > 0,
        forall|j: int| 0 <= j < ts.len() && j < within.len() ==> !within[j],
    ensures
        icon_for(ts, within) == ts[ts.len() - 1].icon,
{
    lemma_icon_from_none_reached(ts, within, 0);
}

/// With no thresholds, the icon is a space.
pub proof fn lemma_icon_without_thresholds(within: Seq<bool>)
    ensures
        icon_for(Seq::<IconThreshold>::empty(), within) == ' ',
{
}

/// Why no configuration could be had.
pub enum ConfigError {
    /// The environment names no configuration directory.
    NoConfigDir,
    /// A file could not be read; the message says why.
    Read(String),
    /// A file could not be parsed as a configuration; the message says why.
    Parse(String),
}

/// The configuration: whether the volume is shown as a percentage, the
/// icon thresholds, the text shown when the sink is muted, the stylesheet,
/// and the file the configuration was read from.
#[derive(Clone, Debug, PartialEq)]
pub struct Config {
    pub use_percent: bool,
    pub thresholds: Vec<IconThreshold>,
    pub muted_text: String,
    style_path: Option<String>,
    config_file: Option<String>,
}

/// A configuration as values: its fields, the texts as characters.
pub struct ConfigView {
    pub use_percent: bool,
    pub thresholds: Seq<IconThreshold>,
    pub muted_text: Seq<char>,
    pub style_path: Option<Seq<char>>,
    pub config_file: Option<Seq<char>>,
}

impl ConfigView {
    /// The same configuration, recorded as read from file `path`.
    pub open spec fn with_file(self, path: Seq<char>) -> ConfigView {
        ConfigView { config_file: Some(path), ..self }
    }

    /// The same configuration, with stylesheet `style`.
    pub open spec fn with_style(self, style: Option<Seq<char>>) -> ConfigView {
        ConfigView { style_path: style, ..self }
    }
}

impl View for Config {
    type V = ConfigView;

    closed spec fn view(&self) -> ConfigView {
        ConfigView {
            use_percent: self.use_percent,
            thresholds: self.thresholds@,
            muted_text: self.muted_text@,
            style_path: opt_chars(self.style_path),
            config_file: opt_chars(self.config_file),
        }
    }
}

/// The glyph shown by default when the sink is muted.
pub const MUTED_GLYPH: char = '\u{eee8}';

/// The default configuration: no percentage, the default thresholds, the
/// muted glyph as muted text, no stylesheet, read from no file.
pub open spec fn default_config() -> ConfigView {
    ConfigView {
        use_percent: false,
        thresholds: default_thresholds(),
        muted_text: seq![MUTED_GLYPH],
        style_path: None,
        config_file: None,
    }
}

fn clone_opt(s: &Option<String>) -> (r: Option<String>)
    ensures
        r == *s,
{
    match s {
        Some(t) => Some(t.clone()),
        None => None,
    }
}

impl Default for Config {
    fn default() -> (c: Config)
        ensures
            c@ == default_config(),
    {
        Config {
            thresholds: volume_icons(),
            use_percent: false,
            muted_text: char_string(MUTED_GLYPH),
            config_file: None,
            style_path: None,
        }
    }
}

impl Config {
    /// A configuration as read from a file's contents: the file itself is
    /// not recorded.
    pub fn from_parsed(
        use_percent: bool,
        thresholds: Vec<IconThreshold>,
        muted_text: String,
        style_path: Option<String>,
    ) -> (c: Config)
        ensures
            c@ == (ConfigView {
                use_percent,
                thresholds: thresholds@,
                muted_text: muted_text@,
                style_path: opt_chars(style_path),
                config_file: None,
            }),
    {
        Config { use_percent, thresholds, muted_text, style_path, config_file: None }
    }

    /// Whether the volume is shown as a percentage.
    pub fn shows_percent(&self) -> (b: bool)
        ensures
            b == self@.use_percent,
    {
        self.use_percent
    }

    /// The text shown when the sink is muted.
    pub fn muted_label(&self) -> (t: &String)
        ensures
            t@ == self@.muted_text,
    {
        &self.muted_text
    }

    /// The file the configuration was read from, if any.
    pub fn get_file_path(&self) -> (r: Option<String>)
        ensures
            opt_chars(r) == self@.config_file,
    {
        clone_opt(&self.config_file)
    }

    /// The stylesheet, if any.
    pub fn style_path(&self) -> (r: Option<String>)
        ensures
            opt_chars(r) == self@.style_path,
    {
        clone_opt(&self.style_path)
    }

    /// The icon for a volume, as a string: `within[k]` says whether the
    /// volume is at most the running total of the levels of thresholds
    /// `0..=k` (see `icon_for`).
    pub fn map_vol_icon(&self, within: &Vec<bool>) -> (s: String)
        ensures
            s@ == seq![icon_for(self@.thresholds, within@)],
    {
        char_string(pick_icon(&self.thresholds, within))
    }
}

/// The name of the configuration file in the configuration directory.
pub open spec fn config_file_name() -> Seq<char> {
    seq!['c', 'o', 'n', 'f', 'i', 'g', '.', 't', 'o', 'm', 'l']
}

/// The name of the stylesheet beside a configuration file.
pub open spec fn style_file_name() -> Seq<char> {
    seq!['s', 't', 'y', 'l', 'e', '.', 'c', 's', 's']
}

/// The components that lead from the user's configuration directory to
/// this program's.
pub open spec fn app_dir_names() -> (Seq<char>, Seq<char>) {
    (seq!['a', 's', 'f', 'y'], seq!['a', 's', 'f', 'y', '-', 'v', 'o', 'l'])
}

/// This program's configuration directory under the user's `base`.
pub open spec fn app_config_dir(base: Seq<char>) -> Seq<char> {
    joined_path(joined_path(base, app_dir_names().0), app_dir_names().1)
}

/// This program's configuration directory is the user's configuration
/// directory `base` followed by `/asfy/asfy-vol`, and the configuration
/// file in it is that followed by `/config.toml` (for a `base` that is not
/// empty and does not already end in `/`).
pub proof fn lemma_config_file_location(base: Seq<char>)
    requires
        base.len() > 0,
        base.last() != '/',
    ensures
        app_config_dir(base) == base + seq!['/', 'a', 's', 'f', 'y', '/', 'a', 's', 'f', 'y', '-', 'v', 'o', 'l'],
        joined_path(app_config_dir(base), config_file_name()) == base + seq![
            '/', 'a', 's', 'f', 'y', '/', 'a', 's', 'f', 'y', '-', 'v', 'o', 'l',
            '/', 'c', 'o', 'n', 'f', 'i', 'g', '.', 't', 'o', 'm', 'l'
        ],
{
    let first = joined_path(base, app_dir_names().0);
    assert(first =~= base + seq!['/', 'a', 's', 'f', 'y']);
    let dir = app_config_dir(base);
    assert(dir =~= base + seq!['/', 'a', 's', 'f', 'y', '/', 'a', 's', 'f', 'y', '-', 'v', 'o', 'l']);
    assert(dir.last() == 'l');
    assert(joined_path(dir, config_file_name()) =~= base + seq![
        '/', 'a', 's', 'f', 'y', '/', 'a', 's', 'f', 'y', '-', 'v', 'o', 'l',
        '/', 'c', 'o', 'n', 'f', 'i', 'g', '.', 't', 'o', 'm', 'l'
    ]);
}

/// A configuration directory that was found never ends setup with
/// `NoConfigDir`: the first step asks whether the configuration file in it
/// exists.
pub proof fn lemma_found_dir_is_searched(d: String, s: SetupState)
    requires
        starts_in_dir(d@, s),
    ensures
        s is CheckDefaultFile,
        !(s is Done),
{
}

/// This program's configuration directory under the user's configuration
/// directory `base`, or `NoConfigDir` when there is none.
pub fn config_dir_under(base: Option<String>) -> (r: Result<String, ConfigError>)
    ensures
        base matches Some(b) ==> r matches Ok(d) && d@ == app_config_dir(b@),
        base is None ==> r matches Err(ConfigError::NoConfigDir),
{
    match base {
        Some(b) => {
            let first = join_path(b.as_str(), "asfy");
            let dir = join_path(first.as_str(), "asfy-vol");
            proof {
                reveal_strlit("asfy");
                reveal_strlit("asfy-vol");
                assert("asfy"@ =~= app_dir_names().0);
                assert("asfy-vol"@ =~= app_dir_names().1);
            }
            Ok(dir)
        },
        None => Err(ConfigError::NoConfigDir),
    }
}

/// This program's configuration directory, under the user's configuration
/// directory, whether it exists or not; `NoConfigDir` when the environment
/// names no configuration directory. (The library does not panic: where an
/// unchecked lookup would abort for want of a configuration directory, this
/// function reports `NoConfigDir`, and setup ends with that error.)
pub fn get_config_dir() -> (r: Result<String, ConfigError>)
    ensures
        r matches Err(e) ==> e is NoConfigDir,
        r matches Ok(d) ==> exists|base: Seq<char>| d@ == app_config_dir(base),
{
    let base = user_config_dir();
    let ghost given = base;
    let r = config_dir_under(base);
    proof {
        if given is Some {
            assert(r->Ok_0@ == app_config_dir(given->Some_0@));
        }
    }
    r
}

/// Where the default files go when the configuration is written to `path`:
/// the directory that holds `path` and the stylesheet in it; `None` when
/// `path` has no parent.
pub fn default_files_layout(path: &str) -> (r: Option<(String, String)>)
    ensures
        parent_path(path@) is None ==> r is None,
        parent_path(path@) matches Some(dir) ==> r matches Some((d, s)) && d@ == dir && s@
            == joined_path(dir, style_file_name()),
{
    match parent_of(path) {
        Some(dir) => {
            let style = join_path(dir.as_str(), "style.css");
            proof {
                reveal_strlit("style.css");
                assert("style.css"@ =~= style_file_name());
            }
            Some((dir, style))
        },
        None => None,
    }
}

/// A step of setting up the configuration: what the caller is to do next,
/// and what has been decided so far.
pub enum SetupState {
    /// Find out whether `file`, in configuration directory `dir`, exists.
    CheckDefaultFile { dir: String, file: String },
    /// Read the file at `path` and parse it as a configuration.
    ReadConfig { path: String },
    /// Find out whether `style`, beside the file that `config` was read
    /// from, is an existing regular file; `config` names no stylesheet.
    CheckLoadedStyle { config: Config, style: String },
    /// Write `config` to `path`, with the default stylesheet beside it;
    /// `style` is the stylesheet in the configuration directory.
    WriteDefaults { config: Config, path: String, style: String },
    /// Find out whether `style`, in the configuration directory, is an
    /// existing regular file; `config` is the default configuration.
    CheckDefaultStyle { config: Config, style: String },
    /// Setup is over, with this outcome.
    Done(Result<Config, ConfigError>),
}

/// What the caller found out in performing a step.
pub enum SetupEvent {
    /// Whether the file asked about exists.
    Exists(bool),
    /// The configuration read and parsed from the file asked about.
    Parsed(Result<Config, ConfigError>),
    /// The default files were written, or writing them failed (which does
    /// not stop setup).
    Written,
    /// Whether the stylesheet asked about is an existing regular file.
    IsFile(bool),
}

/// Event `e` answers the step that state `s` asks for.
pub open spec fn answers(s: SetupState, e: SetupEvent) -> bool {
    match s {
        SetupState::CheckDefaultFile { .. } => e is Exists,
        SetupState::ReadConfig { .. } => e is Parsed,
        SetupState::CheckLoadedStyle { .. } => e is IsFile,
        SetupState::WriteDefaults { .. } => e is Written,
        SetupState::CheckDefaultStyle { .. } => e is IsFile,
        SetupState::Done(_) => false,
    }
}

/// How many steps are left at most before setup is over.
pub open spec fn steps_left(s: SetupState) -> nat {
    match s {
        SetupState::CheckDefaultFile { .. } => 3,
        SetupState::ReadConfig { .. } => 2,
        SetupState::CheckLoadedStyle { .. } => 1,
        SetupState::WriteDefaults { .. } => 2,
        SetupState::CheckDefaultStyle { .. } => 1,
        SetupState::Done(_) => 0,
    }
}

/// The outcome of reading the configuration from `path`, when the file
/// parsed as configuration `c`: `c` recorded as read from `path`. When `c`
/// names a stylesheet, setup is over and that stylesheet is kept; otherwise
/// the stylesheet beside `path` is to be checked next, if `path` has a
/// parent.
pub open spec fn after_load(path: Seq<char>, c: ConfigView, t: SetupState) -> bool {
    if c.style_path is Some {
        t matches SetupState::Done(Ok(config)) && config@ == c.with_file(path)
    } else {
        match parent_path(path) {
            Some(dir) => t matches SetupState::CheckLoadedStyle { config, style } && config@
                == c.with_file(path) && style@ == joined_path(dir, style_file_name()),
            None => t matches SetupState::Done(Ok(config)) && config@ == c.with_file(path),
        }
    }
}

/// State `t` follows state `s` on event `e`. An event that does not answer
/// the step asked for leaves the state as it is.
pub open spec fn advances(s: SetupState, e: SetupEvent, t: SetupState) -> bool {
    if !answers(s, e) {
        t == s
    } else {
        match (s, e) {
            (SetupState::CheckDefaultFile { dir, file }, SetupEvent::Exists(true)) => {
                t matches SetupState::ReadConfig { path } && path@ == file@
            },
            (SetupState::CheckDefaultFile { dir, file }, SetupEvent::Exists(false)) => {
                t matches SetupState::WriteDefaults { config, path, style } && config@
                    == default_config() && path@ == file@ && style@ == joined_path(
                    dir@,
                    style_file_name(),
                )
            },
            (SetupState::ReadConfig { path }, SetupEvent::Parsed(Ok(c))) => after_load(
                path@,
                c@,
                t,
            ),
            (SetupState::ReadConfig { path }, SetupEvent::Parsed(Err(err))) => {
                t == SetupState::Done(Err(err))
            },
            (SetupState::CheckLoadedStyle { config, style }, SetupEvent::IsFile(is_file)) => {
                t matches SetupState::Done(Ok(c)) && c@ == (if is_file {
                    config@.with_style(Some(style@))
                } else {
                    config@
                })
            },
            (SetupState::WriteDefaults { config, path, style }, SetupEvent::Written) => {
                t matches SetupState::CheckDefaultStyle { config: c, style: st } && c@
                    == config@ && st@ == style@
            },
            (SetupState::CheckDefaultStyle { config, style }, SetupEvent::IsFile(is_file)) => {
                t matches SetupState::Done(Ok(c)) && c@ == config@.with_style(
                    if is_file {
                        Some(style@)
                    } else {
                        None
                    },
                )
            },
            _ => false,
        }
    }
}

/// The first step of setting up in configuration directory `dir`: find out
/// whether the configuration file there exists.
pub open spec fn starts_in_dir(dir: Seq<char>, t: SetupState) -> bool {
    t matches SetupState::CheckDefaultFile { dir: d, file } && d@ == dir && file@
        == joined_path(dir, config_file_name())
}

impl Config {
    /// Begins setting up the configuration. With a file given, the first
    /// step reads it. Otherwise the configuration directory is looked up in
    /// the environment: when there is none, setup is over with
    /// `NoConfigDir`; else the first step asks whether the configuration
    /// file in it exists.
    pub fn setup(config_file: Option<String>) -> (s: SetupState)
        ensures
            config_file matches Some(p) ==> s matches SetupState::ReadConfig { path } && path@
                == p@,
            config_file is None ==> (s matches SetupState::Done(Err(e)) && e is NoConfigDir)
                || (exists|base: Seq<char>| starts_in_dir(app_config_dir(base), s)),
    {
        match config_file {
            Some(path) => SetupState::ReadConfig { path },
            None => {
                let dir = get_config_dir();
                proof {
                    if dir is Ok {
                        let d = dir->Ok_0;
                        let base = choose|base: Seq<char>| d@ == app_config_dir(base);
                        assert(d@ == app_config_dir(base));
                    }
                }
                let s = Config::setup_in(dir);
                s
            },
        }
    }

    /// Begins setting up the configuration in the configuration directory
    /// that was looked up: on an error, setup is over with it; else the
    /// first step asks whether the configuration file in the directory
    /// exists.
    pub fn setup_in(dir: Result<String, ConfigError>) -> (s: SetupState)
        ensures
            dir matches Ok(d) ==> starts_in_dir(d@, s),
            dir matches Err(e) ==> s == SetupState::Done(Err(e)),
    {
        match dir {
            Ok(d) => {
                let file = join_path(d.as_str(), "config.toml");
                proof {
                    reveal_strlit("config.toml");
                    assert("config.toml"@ =~= config_file_name());
                }
                SetupState::CheckDefaultFile { dir: d, file }
            },
            Err(e) => SetupState::Done(Err(e)),
        }
    }
}

impl SetupState {
    /// The state that follows on event `e` (see `advances`).
    pub fn advance(self, e: SetupEvent) -> (t: SetupState)
        ensures
            advances(self, e, t),
    {
        match self {
            SetupState::CheckDefaultFile { dir, file } => match e {
                SetupEvent::Exists(true) => SetupState::ReadConfig { path: file },
                SetupEvent::Exists(false) => {
                    let style = join_path(dir.as_str(), "style.css");
                    proof {
                        reveal_strlit("style.css");
                        assert("style.css"@ =~= style_file_name());
                    }
                    SetupState::WriteDefaults { config: Config::default(), path: file, style }
                },
                _ => SetupState::CheckDefaultFile { dir, file },
            },
            SetupState::ReadConfig { path } => match e {
                SetupEvent::Parsed(Ok(c)) => load_finish(path, c),
                SetupEvent::Parsed(Err(err)) => SetupState::Done(Err(err)),
                _ => SetupState::ReadConfig { path },
            },
            SetupState::CheckLoadedStyle { config, style } => match e {
                SetupEvent::IsFile(is_file) => {
                    let mut c = config;
                    if is_file {
                        c.style_path = Some(style);
                    }
                    SetupState::Done(Ok(c))
                },
                _ => SetupState::CheckLoadedStyle { config, style },
            },
            SetupState::WriteDefaults { config, path, style } => match e {
                SetupEvent::Written => SetupState::CheckDefaultStyle { config, style },
                _ => SetupState::WriteDefaults { config, path, style },
            },
            SetupState::CheckDefaultStyle { config, style } => match e {
                SetupEvent::IsFile(is_file) => {
                    let mut c = config;
                    c.style_path = if is_file {
                        Some(style)
                    } else {
                        None
                    };
                    SetupState::Done(Ok(c))
                },
                _ => SetupState::CheckDefaultStyle { config, style },
            },
            SetupState::Done(r) => SetupState::Done(r),
        }
    }
}

/// Records configuration `c` as read from `path` and decides the next step.
fn load_finish(path: String, c: Config) -> (t: SetupState)
    ensures
        after_load(path@, c@, t),
{
    let mut config = c;
    if config.style_path.is_some() {
        config.config_file = Some(path);
        return SetupState::Done(Ok(config));
    }
    let parent = parent_of(path.as_str());
    match parent {
        Some(dir) => {
            let style = join_path(dir.as_str(), "style.css");
            proof {
                reveal_strlit("style.css");
                assert("style.css"@ =~= style_file_name());
            }
            config.config_file = Some(path);
            SetupState::CheckLoadedStyle { config, style }
        },
        None => {
            config.config_file = Some(path);
            SetupState::Done(Ok(config))
        },
    }
}

/// Every step that an answering event completes brings setup closer to its
/// end: a run of setup takes at most three steps after its first.
pub proof fn lemma_setup_progress(s: SetupState, e: SetupEvent, t: SetupState)
    requires
        advances(s, e, t),
        answers(s, e),
    ensures
        steps_left(t) < steps_left(s),
{
}

/// A configuration read from file `path` ends up recorded as read from
/// `path`, with the rest of what was read kept, whatever is found of the
/// stylesheet beside it; a stylesheet that the configuration names is kept.
pub proof fn lemma_loaded_config_records_file(
    path: String,
    c: Config,
    t1: SetupState,
    is_file: bool,
    t2: SetupState,
)
    requires
        advances(SetupState::ReadConfig { path }, SetupEvent::Parsed(Ok(c)), t1),
        advances(t1, SetupEvent::IsFile(is_file), t2),
    ensures
        t2 matches SetupState::Done(Ok(r)) && r@.config_file == Some(path@) && r@.use_percent
            == c@.use_percent && r@.thresholds == c@.thresholds && r@.muted_text
            == c@.muted_text,
        c@.style_path is Some ==> (t2 matches SetupState::Done(Ok(r)) && r@.style_path
            == c@.style_path),
{
}

/// When the configuration directory holds no configuration file, setup
/// writes the default files and ends with the default configuration, read
/// from no file, whose stylesheet is the one in the directory exactly when
/// that is an existing regular file.
pub proof fn lemma_fresh_setup_is_default(
    dir: Seq<char>,
    s0: SetupState,
    s1: SetupState,
    s2: SetupState,
    is_file: bool,
    s3: SetupState,
)
    requires
        starts_in_dir(dir, s0),
        advances(s0, SetupEvent::Exists(false), s1),
        advances(s1, SetupEvent::Written, s2),
        advances(s2, SetupEvent::IsFile(is_file), s3),
    ensures
        s1 is WriteDefaults,
        s3 matches SetupState::Done(Ok(c)) && c@ == default_config().with_style(
            if is_file {
                Some(joined_path(dir, style_file_name()))
            } else {
                None
            },
        ),
        s3 matches SetupState::Done(Ok(c)) && c@.config_file is None,
{
}

/// When the configuration directory holds a configuration file, setup reads
/// that file.
pub proof fn lemma_existing_file_is_read(dir: Seq<char>, s0: SetupState, s1: SetupState)
    requires
        starts_in_dir(dir, s0),
        advances(s0, SetupEvent::Exists(true), s1),
    ensures
        s1 matches SetupState::ReadConfig { path } && path@ == joined_path(
            dir,
            config_file_name(),
        ),
{
}

/// Once setup is over, it stays over, whatever is reported.
pub proof fn lemma_done_is_final(r: Result<Config, ConfigError>, e: SetupEvent, t: SetupState)
    requires
        advances(SetupState::Done(r), e, t),
    ensures
        t == SetupState::Done(r),
{
}

} // verus!
