//! Log filtering: level models, `RUST_LOG`-style filter parsing, and the
//! per-target matching a logger applies to each record.

use vstd::prelude::*;

use crate::text::{dec_digits, eq_ignore_ascii_case, find_char, first_index_of, has_char,
    lemma_first_index_of, split_seq, trim_range, trim_view, usize_to_string};

verus! {

/// Severity of one log record.
#[derive(Clone, Copy, Debug, Eq, PartialEq, Structural)]
pub enum Level {
    Error,
    Warn,
    Info,
    Debug,
    Trace,
}

/// A verbosity ceiling: `Off` admits nothing, `Trace` everything.
#[derive(Clone, Copy, Debug, Eq, PartialEq, Structural)]
pub enum LevelFilter {
    Off,
    Error,
    Warn,
    Info,
    Debug,
    Trace,
}

/// Numeric rank of a filter; higher admits more.
pub open spec fn severity_of(l: LevelFilter) -> int {
    match l {
        LevelFilter::Off => 0,
        LevelFilter::Error => 1,
        LevelFilter::Warn => 2,
        LevelFilter::Info => 3,
        LevelFilter::Debug => 4,
        LevelFilter::Trace => 5,
    }
}

/// The filter that admits exactly the records at `l` and above.
pub open spec fn level_to_filter(l: Level) -> LevelFilter {
    match l {
        Level::Error => LevelFilter::Error,
        Level::Warn => LevelFilter::Warn,
        Level::Info => LevelFilter::Info,
        Level::Debug => LevelFilter::Debug,
        Level::Trace => LevelFilter::Trace,
    }
}

impl Level {
    /// See [`level_to_filter`].
    pub fn to_level_filter(&self) -> (r: LevelFilter)
        ensures
            r == level_to_filter(*self),
    {
        match self {
            Level::Error => LevelFilter::Error,
            Level::Warn => LevelFilter::Warn,
            Level::Info => LevelFilter::Info,
            Level::Debug => LevelFilter::Debug,
            Level::Trace => LevelFilter::Trace,
        }
    }
}

impl LevelFilter {
    /// See [`severity_of`].
    pub fn severity(&self) -> (n: u8)
        ensures
            n as int == severity_of(*self),
    {
        match self {
            LevelFilter::Off => 0,
            LevelFilter::Error => 1,
            LevelFilter::Warn => 2,
            LevelFilter::Info => 3,
            LevelFilter::Debug => 4,
            LevelFilter::Trace => 5,
        }
    }
}

/// Log level codes of the C interface.
#[allow(non_camel_case_types)]
#[derive(Clone, Copy, Debug, Eq, PartialEq, Structural)]
pub enum cspot_log_level_t {
    CSPOT_LOG_LEVEL_OFF,
    CSPOT_LOG_LEVEL_ERROR,
    CSPOT_LOG_LEVEL_WARN,
    CSPOT_LOG_LEVEL_INFO,
    CSPOT_LOG_LEVEL_DEBUG,
    CSPOT_LOG_LEVEL_TRACE,
}

/// The filter a C level code selects.
pub open spec fn filter_of_level_code(v: cspot_log_level_t) -> LevelFilter {
    match v {
        cspot_log_level_t::CSPOT_LOG_LEVEL_OFF => LevelFilter::Off,
        cspot_log_level_t::CSPOT_LOG_LEVEL_ERROR => LevelFilter::Error,
        cspot_log_level_t::CSPOT_LOG_LEVEL_WARN => LevelFilter::Warn,
        cspot_log_level_t::CSPOT_LOG_LEVEL_INFO => LevelFilter::Info,
        cspot_log_level_t::CSPOT_LOG_LEVEL_DEBUG => LevelFilter::Debug,
        cspot_log_level_t::CSPOT_LOG_LEVEL_TRACE => LevelFilter::Trace,
    }
}

impl From<cspot_log_level_t> for LevelFilter {
    fn from(value: cspot_log_level_t) -> Self {
        match value {
            cspot_log_level_t::CSPOT_LOG_LEVEL_OFF => LevelFilter::Off,
            cspot_log_level_t::CSPOT_LOG_LEVEL_ERROR => LevelFilter::Error,
            cspot_log_level_t::CSPOT_LOG_LEVEL_WARN => LevelFilter::Warn,
            cspot_log_level_t::CSPOT_LOG_LEVEL_INFO => LevelFilter::Info,
            cspot_log_level_t::CSPOT_LOG_LEVEL_DEBUG => LevelFilter::Debug,
            cspot_log_level_t::CSPOT_LOG_LEVEL_TRACE => LevelFilter::Trace,
        }
    }
}

impl vstd::std_specs::convert::FromSpecImpl<cspot_log_level_t> for LevelFilter {
    open spec fn obeys_from_spec() -> bool {
        true
    }

    open spec fn from_spec(v: cspot_log_level_t) -> Self {
        filter_of_level_code(v)
    }
}

/// The C level code of a record severity.
pub open spec fn level_code_of(l: Level) -> cspot_log_level_t {
    match l {
        Level::Error => cspot_log_level_t::CSPOT_LOG_LEVEL_ERROR,
        Level::Warn => cspot_log_level_t::CSPOT_LOG_LEVEL_WARN,
        Level::Info => cspot_log_level_t::CSPOT_LOG_LEVEL_INFO,
        Level::Debug => cspot_log_level_t::CSPOT_LOG_LEVEL_DEBUG,
        Level::Trace => cspot_log_level_t::CSPOT_LOG_LEVEL_TRACE,
    }
}

impl From<Level> for cspot_log_level_t {
    fn from(value: Level) -> Self {
        match value {
            Level::Error => cspot_log_level_t::CSPOT_LOG_LEVEL_ERROR,
            Level::Warn => cspot_log_level_t::CSPOT_LOG_LEVEL_WARN,
            Level::Info => cspot_log_level_t::CSPOT_LOG_LEVEL_INFO,
            Level::Debug => cspot_log_level_t::CSPOT_LOG_LEVEL_DEBUG,
            Level::Trace => cspot_log_level_t::CSPOT_LOG_LEVEL_TRACE,
        }
    }
}

impl vstd::std_specs::convert::FromSpecImpl<Level> for cspot_log_level_t {
    open spec fn obeys_from_spec() -> bool {
        true
    }

    open spec fn from_spec(v: Level) -> Self {
        level_code_of(v)
    }
}

/// Mathematical value of a [`TargetFilter`].
pub ghost struct DirectiveView {
    pub target: Seq<char>,
    pub level: LevelFilter,
}

/// One filter directive: records whose target starts with `target` are
/// admitted up to `level`.
#[derive(Debug)]
pub struct TargetFilter {
    pub target: String,
    pub level: LevelFilter,
}

impl View for TargetFilter {
    type V = DirectiveView;

    open spec fn view(&self) -> DirectiveView {
        DirectiveView { target: self.target@, level: self.level }
    }
}

impl DeepView for TargetFilter {
    type V = DirectiveView;

    open spec fn deep_view(&self) -> DirectiveView {
        self.view()
    }
}

/// Mathematical value of a [`LogFilter`].
pub ghost struct LogFilterView {
    pub default_level: LevelFilter,
    pub directives: Seq<DirectiveView>,
}

/// A parsed log filter: a default ceiling plus per-target directives.
#[derive(Debug)]
pub struct LogFilter {
    pub default_level: LevelFilter,
    pub directives: Vec<TargetFilter>,
}

impl View for LogFilter {
    type V = LogFilterView;

    open spec fn view(&self) -> LogFilterView {
        LogFilterView {
            default_level: self.default_level,
            directives: self.directives.deep_view(),
        }
    }
}

/// The ceiling that applies to `target`: directives are scanned in order,
/// and of the prefixes that match, a directive at least as long as the
/// best so far takes over; with none matching the default stands.
pub open spec fn best_level_from(
    dirs: Seq<DirectiveView>,
    target: Seq<char>,
    cur_level: LevelFilter,
    cur_len: int,
) -> LevelFilter
    decreases dirs.len(),
{
    if dirs.len() == 0 {
        cur_level
    } else {
        let d = dirs[0];
        if d.target.is_prefix_of(target) && d.target.len() >= cur_len {
            best_level_from(dirs.drop_first(), target, d.level, d.target.len() as int)
        } else {
            best_level_from(dirs.drop_first(), target, cur_level, cur_len)
        }
    }
}

/// Whether a record with the given target and level passes the filter.
pub open spec fn spec_enabled(f: LogFilterView, target: Seq<char>, level: Level) -> bool {
    severity_of(level_to_filter(level)) <= severity_of(
        best_level_from(f.directives, target, f.default_level, 0),
    )
}

/// The most verbose ceiling the filter can ever apply: the maximum of the
/// default and every directive, earlier entries winning ties.
pub open spec fn max_level_from(dirs: Seq<DirectiveView>, cur: LevelFilter) -> LevelFilter
    decreases dirs.len(),
{
    if dirs.len() == 0 {
        cur
    } else {
        let next = if severity_of(dirs[0].level) > severity_of(cur) {
            dirs[0].level
        } else {
            cur
        };
        max_level_from(dirs.drop_first(), next)
    }
}

/// The level a trimmed, ASCII-case-folded word names, if any.
pub open spec fn spec_parse_level(s: Seq<char>) -> Option<LevelFilter> {
    let t = trim_view(s);
    if eq_ignore_ascii_case(t, "off"@) {
        Some(LevelFilter::Off)
    } else if eq_ignore_ascii_case(t, "error"@) {
        Some(LevelFilter::Error)
    } else if eq_ignore_ascii_case(t, "warn"@) || eq_ignore_ascii_case(t, "warning"@) {
        Some(LevelFilter::Warn)
    } else if eq_ignore_ascii_case(t, "info"@) {
        Some(LevelFilter::Info)
    } else if eq_ignore_ascii_case(t, "debug"@) {
        Some(LevelFilter::Debug)
    } else if eq_ignore_ascii_case(t, "trace"@) {
        Some(LevelFilter::Trace)
    } else {
        None
    }
}

/// Parses a level word: whitespace around it and ASCII case are ignored.
pub fn parse_level(value: &str) -> (r: Option<LevelFilter>)
    ensures
        r == spec_parse_level(value@),
{
    let n = value.unicode_len();
    let (from, to) = trim_range(value, 0, n);
    proof {
        assert(value@.subrange(0, n as int) =~= value@);
    }
    if range_eq_keyword(value, from, to, "off") {
        Some(LevelFilter::Off)
    } else if range_eq_keyword(value, from, to, "error") {
        Some(LevelFilter::Error)
    } else if range_eq_keyword(value, from, to, "warn") || range_eq_keyword(
        value,
        from,
        to,
        "warning",
    ) {
        Some(LevelFilter::Warn)
    } else if range_eq_keyword(value, from, to, "info") {
        Some(LevelFilter::Info)
    } else if range_eq_keyword(value, from, to, "debug") {
        Some(LevelFilter::Debug)
    } else if range_eq_keyword(value, from, to, "trace") {
        Some(LevelFilter::Trace)
    } else {
        None
    }
}

/// [`crate::text::range_eq_ci`], under a name that says what it is used for.
fn range_eq_keyword(s: &str, from: usize, to: usize, word: &str) -> (r: bool)
    requires
        from <= to <= s@.len(),
    ensures
        r == eq_ignore_ascii_case(s@.subrange(from as int, to as int), word@),
{
    crate::text::range_eq_ci(s, from, to, word)
}

/// The parse error for a directive with nothing left of its `=`.
pub open spec fn msg_empty_directive(index: nat) -> Seq<char> {
    "empty log directive at position "@ + dec_digits(index)
}

/// The parse error for a directive with nothing right of its `=`.
pub open spec fn msg_missing_level(target: Seq<char>) -> Seq<char> {
    "missing log level for target `"@ + target + "`"@
}

/// The parse error for a level word that names no level.
pub open spec fn msg_invalid_level(level: Seq<char>) -> Seq<char> {
    "invalid level `"@ + level + "`"@
}

/// One directive at a time, a filter string's comma-separated pieces are
/// folded into the filter: a blank piece is skipped, a bare level word
/// resets the default, a bare target admits everything under it, and
/// `target=level` pairs append a directive. The first malformed piece
/// stops the parse with its message.
pub open spec fn parse_pieces(
    pieces: Seq<Seq<char>>,
    index: nat,
    default_level: LevelFilter,
    dirs: Seq<DirectiveView>,
) -> Result<LogFilterView, Seq<char>>
    decreases pieces.len(),
{
    if pieces.len() == 0 {
        Ok(LogFilterView { default_level, directives: dirs })
    } else {
        let piece = trim_view(pieces[0]);
        let rest = pieces.drop_first();
        if piece.len() == 0 {
            parse_pieces(rest, index + 1, default_level, dirs)
        } else if has_char(piece, '=') {
            let j = first_index_of(piece, '=');
            let left = trim_view(piece.subrange(0, j));
            let right = trim_view(piece.subrange(j + 1, piece.len() as int));
            if left.len() == 0 {
                Err(msg_empty_directive(index))
            } else if right.len() == 0 {
                Err(msg_missing_level(left))
            } else {
                match spec_parse_level(right) {
                    Some(level) => parse_pieces(
                        rest,
                        index + 1,
                        default_level,
                        dirs.push(DirectiveView { target: left, level }),
                    ),
                    None => Err(msg_invalid_level(right)),
                }
            }
        } else {
            match spec_parse_level(piece) {
                Some(level) => parse_pieces(rest, index + 1, level, dirs),
                None => parse_pieces(
                    rest,
                    index + 1,
                    default_level,
                    dirs.push(DirectiveView { target: piece, level: LevelFilter::Trace }),
                ),
            }
        }
    }
}

/// The filter a whole directive string parses to, or the message of its
/// first malformed piece.
pub open spec fn spec_parse_filter(s: Seq<char>) -> Result<LogFilterView, Seq<char>> {
    parse_pieces(split_seq(s, ','), 0, LevelFilter::Off, Seq::empty())
}

/// See [`msg_empty_directive`].
fn empty_directive_message(index: usize) -> (r: String)
    ensures
        r@ == msg_empty_directive(index as nat),
{
    let mut message = "empty log directive at position ".to_owned();
    let digits = usize_to_string(index);
    message.append(digits.as_str());
    message
}

/// See [`msg_missing_level`].
fn missing_level_message(target: &str) -> (r: String)
    ensures
        r@ == msg_missing_level(target@),
{
    let mut message = "missing log level for target `".to_owned();
    message.append(target);
    message.append("`");
    message
}

/// See [`msg_invalid_level`].
fn invalid_level_message(level: &str) -> (r: String)
    ensures
        r@ == msg_invalid_level(level@),
{
    let mut message = "invalid level `".to_owned();
    message.append(level);
    message.append("`");
    message
}

impl LogFilter {
    /// The filter used when no directive string is given: nothing by
    /// default, the transport library's own targets at `level`.
    pub fn default_for_level(level: LevelFilter) -> (r: LogFilter)
        ensures
            r@ == (LogFilterView {
                default_level: LevelFilter::Off,
                directives: seq![DirectiveView { target: "librespot"@, level }],
            }),
    {
        let mut directives: Vec<TargetFilter> = Vec::new();
        directives.push(TargetFilter { target: "librespot".to_owned(), level });
        proof {
            assert(directives.deep_view() =~= seq![DirectiveView { target: "librespot"@, level }]);
        }
        LogFilter { default_level: LevelFilter::Off, directives }
    }

    /// Parses a `RUST_LOG`-style directive string; see [`spec_parse_filter`]
    /// for what each piece contributes and when parsing fails.
    pub fn parse(input: &str) -> (r: Result<LogFilter, String>)
        ensures
            match r {
                Ok(f) => spec_parse_filter(input@) == Ok::<LogFilterView, Seq<char>>(f@),
                Err(m) => spec_parse_filter(input@) == Err::<LogFilterView, Seq<char>>(m@),
            },
    {
        let n = input.unicode_len();
        let mut default_level = LevelFilter::Off;
        let mut directives: Vec<TargetFilter> = Vec::new();
        let mut pos: usize = 0;
        let mut index: usize = 0;
        proof {
            assert(input@.subrange(0, n as int) =~= input@);
            assert(directives.deep_view() =~= Seq::<DirectiveView>::empty());
        }
        loop
            invariant_except_break
                n == input@.len(),
                0 <= pos <= n,
                index <= pos,
                parse_pieces(
                    split_seq(input@.subrange(pos as int, n as int), ','),
                    index as nat,
                    default_level,
                    directives.deep_view(),
                ) == spec_parse_filter(input@),
            ensures
                spec_parse_filter(input@) == Ok::<LogFilterView, Seq<char>>(LogFilterView {
                    default_level,
                    directives: directives.deep_view(),
                }),
            decreases n - pos,
        {
            let ghost rem = input@.subrange(pos as int, n as int);
            let ghost dirs_before = directives.deep_view();
            let ghost default_before = default_level;
            let comma = find_char(input, pos, n, ',');
            let piece_end: usize = match comma {
                Some(k) => k,
                None => n,
            };
            let ghost piece_raw = input@.subrange(pos as int, piece_end as int);
            let ghost rest_pieces = match comma {
                Some(k) => split_seq(input@.subrange(k + 1, n as int), ','),
                None => Seq::<Seq<char>>::empty(),
            };
            proof {
                assert(forall|t: int| 0 <= t < rem.len() ==> rem[t] == input@[pos + t]);
                lemma_first_index_of(rem, ',');
                match comma {
                    Some(k) => {
                        assert(has_char(rem, ',')) by {
                            assert(rem[k - pos] == ',');
                        }
                        let f = first_index_of(rem, ',');
                        assert(f == k - pos) by {
                            if f < k - pos {
                                assert(rem[f] == ',');
                                assert(input@[pos + f] == ',');
                            }
                            if f > k - pos {
                                assert(rem[k - pos] != ',');
                            }
                        }
                        assert(rem.subrange(0, f) =~= piece_raw);
                        assert(rem.subrange(f + 1, rem.len() as int) =~= input@.subrange(
                            k + 1,
                            n as int,
                        ));
                        assert(split_seq(rem, ',') == seq![piece_raw] + rest_pieces);
                    },
                    None => {
                        assert(!has_char(rem, ',')) by {
                            if has_char(rem, ',') {
                                let i = choose|i: int| 0 <= i < rem.len() && rem[i] == ',';
                                assert(input@[pos + i] == ',');
                            }
                        }
                        assert(rem =~= piece_raw);
                        assert(split_seq(rem, ',') == seq![piece_raw] + rest_pieces) by {
                            assert(seq![piece_raw] + rest_pieces =~= seq![rem]);
                        }
                    },
                }
                assert((seq![piece_raw] + rest_pieces)[0] == piece_raw);
                assert((seq![piece_raw] + rest_pieces).drop_first() =~= rest_pieces);
            }
            let (t_from, t_to) = trim_range(input, pos, piece_end);
            let ghost piece = trim_view(piece_raw);
            assert(piece == input@.subrange(t_from as int, t_to as int));
            if t_from == t_to {
                proof {
                    assert(parse_pieces(
                        split_seq(rem, ','),
                        index as nat,
                        default_level,
                        directives.deep_view(),
                    ) == parse_pieces(
                        rest_pieces,
                        index as nat + 1,
                        default_level,
                        directives.deep_view(),
                    ));
                }
            } else {
                let eq_at = find_char(input, t_from, t_to, '=');
                proof {
                    assert(forall|t: int| 0 <= t < piece.len() ==> piece[t] == input@[t_from + t]);
                    lemma_first_index_of(piece, '=');
                }
                match eq_at {
                    Some(j) => {
                        proof {
                            assert(has_char(piece, '=')) by {
                                assert(piece[j - t_from] == '=');
                            }
                            let f = first_index_of(piece, '=');
                            assert(f == j - t_from) by {
                                if f < j - t_from {
                                    assert(piece[f] == '=');
                                    assert(input@[t_from + f] == '=');
                                }
                                if f > j - t_from {
                                    assert(piece[j - t_from] != '=');
                                }
                            }
                            assert(piece.subrange(0, f) =~= input@.subrange(
                                t_from as int,
                                j as int,
                            ));
                            assert(piece.subrange(f + 1, piece.len() as int) =~= input@.subrange(
                                j + 1,
                                t_to as int,
                            ));
                        }
                        let (l_from, l_to) = trim_range(input, t_from, j);
                        let (r_from, r_to) = trim_range(input, j + 1, t_to);
                        if l_from == l_to {
                            return Err(empty_directive_message(index));
                        } else if r_from == r_to {
                            let target = input.substring_char(l_from, l_to);
                            return Err(missing_level_message(target));
                        } else {
                            let level_word = input.substring_char(r_from, r_to);
                            match parse_level(level_word) {
                                Some(level) => {
                                    let target = input.substring_char(l_from, l_to).to_owned();
                                    directives.push(TargetFilter { target, level });
                                    proof {
                                        assert(directives.deep_view() =~= dirs_before.push(
                                            DirectiveView {
                                                target: input@.subrange(l_from as int, l_to as int),
                                                level,
                                            },
                                        ));
                                    }
                                },
                                None => {
                                    return Err(invalid_level_message(level_word));
                                },
                            }
                        }
                    },
                    None => {
                        proof {
                            assert(!has_char(piece, '=')) by {
                                if has_char(piece, '=') {
                                    let i = choose|i: int| 0 <= i < piece.len() && piece[i] == '=';
                                    assert(input@[t_from + i] == '=');
                                }
                            }
                        }
                        let word = input.substring_char(t_from, t_to);
                        match parse_level(word) {
                            Some(level) => {
                                default_level = level;
                            },
                            None => {
                                let target = word.to_owned();
                                directives.push(TargetFilter {
                                    target,
                                    level: LevelFilter::Trace,
                                });
                                proof {
                                    assert(directives.deep_view() =~= dirs_before.push(
                                        DirectiveView { target: piece, level: LevelFilter::Trace },
                                    ));
                                }
                            },
                        }
                    },
                }
                proof {
                    assert(parse_pieces(
                        split_seq(rem, ','),
                        index as nat,
                        default_before,
                        dirs_before,
                    ) == parse_pieces(
                        rest_pieces,
                        index as nat + 1,
                        default_level,
                        directives.deep_view(),
                    ));
                }
            }
            match comma {
                Some(k) => {
                    pos = k + 1;
                    index += 1;
                },
                None => {
                    proof {
                        assert(rest_pieces.len() == 0);
                    }
                    break;
                },
            }
        }
        Ok(LogFilter { default_level, directives })
    }

    /// Whether a record with the given target and level passes; see
    /// [`spec_enabled`] for the directive precedence.
    pub fn enabled(&self, target: &str, level: Level) -> (r: bool)
        ensures
            r == spec_enabled(self@, target@, level),
    {
        let ghost dirs = self.directives.deep_view();
        let mut best_level = self.default_level;
        let mut best_len: usize = 0;
        let mut i: usize = 0;
        proof {
            assert(dirs.skip(0) =~= dirs);
        }
        while i < self.directives.len()
            invariant
                0 <= i <= self.directives.len(),
                dirs == self.directives.deep_view(),
                best_level_from(dirs.skip(i as int), target@, best_level, best_len as int)
                    == best_level_from(dirs, target@, self.default_level, 0),
            decreases self.directives.len() - i,
        {
            let directive = &self.directives[i];
            proof {
                assert(dirs.skip(i as int).drop_first() =~= dirs.skip(i + 1));
                assert(dirs.skip(i as int)[0] == dirs[i as int]);
                assert(dirs[i as int] == self.directives@[i as int]@);
            }
            let target_str = directive.target.as_str();
            let len = target_str.unicode_len();
            if crate::text::str_starts_with(target, target_str) && len >= best_len {
                best_len = len;
                best_level = directive.level;
            }
            i += 1;
        }
        proof {
            assert(dirs.skip(self.directives.len() as int) =~= Seq::<DirectiveView>::empty());
        }
        let record_level = level.to_level_filter();
        record_level.severity() <= best_level.severity()
    }

    /// The most verbose ceiling in the filter; see [`max_level_from`].
    pub fn max_level(&self) -> (r: LevelFilter)
        ensures
            r == max_level_from(self@.directives, self@.default_level),
    {
        let ghost dirs = self.directives.deep_view();
        let mut max_level = self.default_level;
        let mut i: usize = 0;
        proof {
            assert(dirs.skip(0) =~= dirs);
        }
        while i < self.directives.len()
            invariant
                0 <= i <= self.directives.len(),
                dirs == self.directives.deep_view(),
                max_level_from(dirs.skip(i as int), max_level) == max_level_from(
                    dirs,
                    self.default_level,
                ),
            decreases self.directives.len() - i,
        {
            proof {
                assert(dirs.skip(i as int).drop_first() =~= dirs.skip(i + 1));
                assert(dirs.skip(i as int)[0] == dirs[i as int]);
                assert(dirs[i as int] == self.directives@[i as int]@);
            }
            let directive = &self.directives[i];
            if directive.level.severity() > max_level.severity() {
                max_level = directive.level;
            }
            i += 1;
        }
        proof {
            assert(dirs.skip(self.directives.len() as int) =~= Seq::<DirectiveView>::empty());
        }
        max_level
    }
}

} // verus!
