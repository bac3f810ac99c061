//! Violation reports: aggregation of the three check results and their
//! rendering as log lines.
use vstd::prelude::*;

verus! {

/// Which of the three violation checks are enabled.
#[derive(Clone, Copy, Debug, PartialEq, Eq, Structural)]
pub struct Checks {
    pub whitelist: bool,
    pub blacklist: bool,
    pub anomaly: bool,
}

impl Checks {
    /// No check is enabled.
    pub open spec fn none(self) -> bool {
        !self.whitelist && !self.blacklist && !self.anomaly
    }

    /// Every check enabled.
    pub fn all() -> (r: Checks)
        ensures
            r.whitelist && r.blacklist && r.anomaly,
    {
        Checks { whitelist: true, blacklist: true, anomaly: true }
    }

    /// True when no check at all is enabled (the report is then always empty).
    pub fn none_enabled(&self) -> (r: bool)
        ensures
            r == self.none(),
    {
        !self.whitelist && !self.blacklist && !self.anomaly
    }
}

/// True when at least one of the three sequences holds a session.
pub open spec fn any_nonempty<S>(a: Seq<S>, b: Seq<S>, c: Seq<S>) -> bool {
    a.len() > 0 || b.len() > 0 || c.len() > 0
}

/// The result of one sampling tick. The sessions are opaque to the report:
/// it only keeps them, in the order each check returned them.
pub struct ViolationReport<S> {
    has_violation: bool,
    whitelist_exceptions: Vec<S>,
    blacklisted: Vec<S>,
    anomalous: Vec<S>,
}

impl<S> ViolationReport<S> {
    #[verifier::type_invariant]
    spec fn flag_matches(self) -> bool {
        self.has_violation == any_nonempty(
            self.whitelist_exceptions@,
            self.blacklisted@,
            self.anomalous@,
        )
    }

    /// Sessions that do not conform to the whitelist.
    pub closed spec fn exceptions(self) -> Seq<S> {
        self.whitelist_exceptions@
    }

    /// Sessions that match the blacklist.
    pub closed spec fn blacklist_hits(self) -> Seq<S> {
        self.blacklisted@
    }

    /// Sessions flagged by the anomaly analysis.
    pub closed spec fn anomalies(self) -> Seq<S> {
        self.anomalous@
    }

    /// The stored violation flag.
    pub closed spec fn flagged(self) -> bool {
        self.has_violation
    }

    /// All violating sessions: exceptions, then blacklisted, then anomalous.
    pub open spec fn violating(self) -> Seq<S> {
        self.exceptions() + self.blacklist_hits() + self.anomalies()
    }

    /// A report without any violation.
    pub fn empty() -> (r: Self)
        ensures
            r.exceptions() == Seq::<S>::empty(),
            r.blacklist_hits() == Seq::<S>::empty(),
            r.anomalies() == Seq::<S>::empty(),
            !r.flagged(),
    {
        ViolationReport {
            has_violation: false,
            whitelist_exceptions: Vec::new(),
            blacklisted: Vec::new(),
            anomalous: Vec::new(),
        }
    }

    /// Whether the tick found a violation: exactly when one of the three
    /// sequences is non-empty.
    pub fn has_violation(&self) -> (r: bool)
        ensures
            r == self.flagged(),
            r == any_nonempty(self.exceptions(), self.blacklist_hits(), self.anomalies()),
    {
        proof {
            use_type_invariant(self);
        }
        self.has_violation
    }

    pub fn whitelist_exceptions(&self) -> (r: &Vec<S>)
        ensures
            r@ == self.exceptions(),
    {
        &self.whitelist_exceptions
    }

    pub fn blacklisted(&self) -> (r: &Vec<S>)
        ensures
            r@ == self.blacklist_hits(),
    {
        &self.blacklisted
    }

    pub fn anomalous(&self) -> (r: &Vec<S>)
        ensures
            r@ == self.anomalies(),
    {
        &self.anomalous
    }

    /// Number of violating sessions, counting a session once per check that
    /// reported it.
    pub fn violation_count(&self) -> (r: usize)
        requires
            self.violating().len() <= usize::MAX,
        ensures
            r == self.violating().len(),
    {
        self.whitelist_exceptions.len() + self.blacklisted.len() + self.anomalous.len()
    }

    /// The violating sessions in report order.
    pub fn into_violating(self) -> (r: Vec<S>)
        ensures
            r@ == self.violating(),
    {
        let ViolationReport { has_violation: _, whitelist_exceptions, blacklisted, anomalous } = self;
        let mut all = whitelist_exceptions;
        let mut b = blacklisted;
        let mut c = anomalous;
        all.append(&mut b);
        all.append(&mut c);
        all
    }
}

/// Builds the report of one tick from what the classification engine
/// returned. A disabled check contributes nothing, whatever the engine
/// returned for it; whitelist exceptions count only when the engine reports
/// the sessions as non-conforming. Sessions keep their order and are not
/// deduplicated across checks.
pub fn aggregate<S>(
    checks: Checks,
    whitelist_conformant: bool,
    exceptions: Vec<S>,
    blacklisted: Vec<S>,
    anomalous: Vec<S>,
) -> (r: ViolationReport<S>)
    ensures
        r.exceptions() == if checks.whitelist && !whitelist_conformant {
            exceptions@
        } else {
            Seq::<S>::empty()
        },
        r.blacklist_hits() == if checks.blacklist {
            blacklisted@
        } else {
            Seq::<S>::empty()
        },
        r.anomalies() == if checks.anomaly {
            anomalous@
        } else {
            Seq::<S>::empty()
        },
        r.flagged() == any_nonempty(r.exceptions(), r.blacklist_hits(), r.anomalies()),
{
    let w = if checks.whitelist && !whitelist_conformant {
        exceptions
    } else {
        Vec::new()
    };
    let b = if checks.blacklist {
        blacklisted
    } else {
        Vec::new()
    };
    let a = if checks.anomaly {
        anomalous
    } else {
        Vec::new()
    };
    let has_violation = w.len() > 0 || b.len() > 0 || a.len() > 0;
    ViolationReport { has_violation, whitelist_exceptions: w, blacklisted: b, anomalous: a }
}

/// A section of a report, one per check.
#[derive(Clone, Copy, Debug, PartialEq, Eq, Structural)]
pub enum Section {
    WhitelistExceptions,
    Blacklisted,
    Anomalous,
}

/// One line of the human-readable report.
pub enum LogLine<S> {
    /// The check of this section found this many sessions.
    Detected(Section, usize),
    /// The banner above the list of violating sessions.
    Banner,
    /// One violating session.
    Session(S),
    /// The closing verdict of a report with violations.
    Verdict,
    /// The whole rendering of a report without violations.
    NoViolations,
}

/// The count line of one section, present only when the section is non-empty.
pub open spec fn count_line<S>(section: Section, s: Seq<S>) -> Seq<LogLine<S>> {
    if s.len() > 0 {
        seq![LogLine::Detected(section, s.len() as usize)]
    } else {
        Seq::empty()
    }
}

/// One session line for each session, in order.
pub open spec fn session_lines<S>(s: Seq<S>) -> Seq<LogLine<S>> {
    s.map_values(|x: S| LogLine::Session(x))
}

/// The lines that render a report.
pub open spec fn rendered<S>(r: ViolationReport<S>) -> Seq<LogLine<S>> {
    if !r.flagged() {
        seq![LogLine::NoViolations]
    } else {
        count_line(Section::WhitelistExceptions, r.exceptions()) + count_line(
            Section::Blacklisted,
            r.blacklist_hits(),
        ) + count_line(Section::Anomalous, r.anomalies()) + seq![LogLine::Banner] + session_lines(
            r.violating(),
        ) + seq![LogLine::Verdict]
    }
}

/// The sessions that a sequence of log lines names, in order.
pub open spec fn sessions_in_log<S>(lines: Seq<LogLine<S>>) -> Seq<S>
    decreases lines.len(),
{
    if lines.len() == 0 {
        Seq::empty()
    } else {
        let rest = sessions_in_log(lines.drop_last());
        match lines.last() {
            LogLine::Session(x) => rest.push(x),
            _ => rest,
        }
    }
}

proof fn lemma_sessions_in_log_concat<S>(a: Seq<LogLine<S>>, b: Seq<LogLine<S>>)
    ensures
        sessions_in_log(a + b) == sessions_in_log(a) + sessions_in_log(b),
    decreases b.len(),
{
    if b.len() == 0 {
        assert(a + b =~= a);
        assert(sessions_in_log(b) =~= Seq::<S>::empty());
        assert(sessions_in_log(a) + sessions_in_log(b) =~= sessions_in_log(a));
    } else {
        lemma_sessions_in_log_concat(a, b.drop_last());
        assert((a + b).drop_last() =~= a + b.drop_last());
        assert((a + b).last() == b.last());
        match b.last() {
            LogLine::Session(x) => {
                assert(sessions_in_log(a) + sessions_in_log(b.drop_last()).push(x) =~= (
                sessions_in_log(a) + sessions_in_log(b.drop_last())).push(x));
            },
            _ => {},
        }
    }
}

proof fn lemma_sessions_of_session_lines<S>(s: Seq<S>)
    ensures
        sessions_in_log(session_lines(s)) == s,
    decreases s.len(),
{
    if s.len() > 0 {
        lemma_sessions_of_session_lines(s.drop_last());
        assert(session_lines(s).drop_last() =~= session_lines(s.drop_last()));
        assert(s.drop_last().push(s.last()) =~= s);
    } else {
        assert(session_lines(s) =~= Seq::<LogLine<S>>::empty());
    }
}

proof fn lemma_single_line<S>(l: LogLine<S>)
    ensures
        sessions_in_log(seq![l]) == (match l {
            LogLine::Session(x) => seq![x],
            _ => Seq::<S>::empty(),
        }),
{
    let one = seq![l];
    assert(one.drop_last() =~= Seq::<LogLine<S>>::empty());
    assert(sessions_in_log(one.drop_last()) == Seq::<S>::empty());
    assert(Seq::<S>::empty().push(l->Session_0) =~= seq![l->Session_0]);
}

proof fn lemma_no_sessions_in_count_line<S>(section: Section, s: Seq<S>)
    ensures
        sessions_in_log(count_line(section, s)) == Seq::<S>::empty(),
{
    if s.len() > 0 {
        lemma_single_line(LogLine::<S>::Detected(section, s.len() as usize));
    } else {
        assert(sessions_in_log(count_line(section, s)) == Seq::<S>::empty());
    }
}

/// The human-readable log and the machine-readable session list taken from
/// it name the same sessions: the report's violating sessions, in order and
/// with the same count. A report without violations names none.
pub proof fn log_and_json_name_the_same_sessions<S>(r: ViolationReport<S>)
    ensures
        sessions_in_log(rendered(r)) == (if r.flagged() {
            r.violating()
        } else {
            Seq::<S>::empty()
        }),
        sessions_in_log(rendered(r)).len() == (if r.flagged() {
            r.violating().len()
        } else {
            0
        }),
{
    if r.flagged() {
        let c1 = count_line(Section::WhitelistExceptions, r.exceptions());
        let c2 = count_line(Section::Blacklisted, r.blacklist_hits());
        let c3 = count_line(Section::Anomalous, r.anomalies());
        let b = seq![LogLine::<S>::Banner];
        let v = session_lines(r.violating());
        let e = seq![LogLine::<S>::Verdict];
        lemma_no_sessions_in_count_line(Section::WhitelistExceptions, r.exceptions());
        lemma_no_sessions_in_count_line(Section::Blacklisted, r.blacklist_hits());
        lemma_no_sessions_in_count_line(Section::Anomalous, r.anomalies());
        lemma_sessions_of_session_lines(r.violating());
        lemma_single_line(LogLine::<S>::Banner);
        lemma_single_line(LogLine::<S>::Verdict);
        lemma_sessions_in_log_concat(c1, c2);
        lemma_sessions_in_log_concat(c1 + c2, c3);
        lemma_sessions_in_log_concat(c1 + c2 + c3, b);
        lemma_sessions_in_log_concat(c1 + c2 + c3 + b, v);
        lemma_sessions_in_log_concat(c1 + c2 + c3 + b + v, e);
        assert(sessions_in_log(rendered(r)) =~= Seq::<S>::empty() + Seq::<S>::empty()
            + Seq::<S>::empty() + Seq::<S>::empty() + r.violating() + Seq::<S>::empty());
        assert(sessions_in_log(rendered(r)) =~= r.violating());
    } else {
        lemma_single_line(LogLine::<S>::NoViolations);
    }
}

fn push_count_line<S>(lines: &mut Vec<LogLine<S>>, section: Section, n: usize)
    ensures
        final(lines)@ == old(lines)@ + (if n > 0 {
            seq![LogLine::Detected(section, n)]
        } else {
            Seq::<LogLine<S>>::empty()
        }),
{
    if n > 0 {
        lines.push(LogLine::Detected(section, n));
    }
    assert(final(lines)@ =~= old(lines)@ + (if n > 0 {
        seq![LogLine::Detected(section, n)]
    } else {
        Seq::<LogLine<S>>::empty()
    }));
}

/// Renders a report as log lines: the count of each non-empty section, a
/// banner, every violating session, and a verdict; a report without
/// violations renders as the single no-violations line.
pub fn render<S>(report: ViolationReport<S>) -> (r: Vec<LogLine<S>>)
    ensures
        r@ == rendered(report),
{
    let ghost g = report;
    let flagged = report.has_violation();
    if !flagged {
        let mut v: Vec<LogLine<S>> = Vec::new();
        v.push(LogLine::NoViolations);
        assert(v@ =~= rendered(g));
        return v;
    }
    let mut lines: Vec<LogLine<S>> = Vec::new();
    push_count_line(&mut lines, Section::WhitelistExceptions, report.whitelist_exceptions().len());
    push_count_line(&mut lines, Section::Blacklisted, report.blacklisted().len());
    push_count_line(&mut lines, Section::Anomalous, report.anomalous().len());
    lines.push(LogLine::Banner);
    let ghost head = lines@;
    let mut sessions = report.into_violating();
    let ghost all = sessions@;
    while sessions.len() > 0
        invariant
            all == g.violating(),
            lines@ == head + session_lines(all.subrange(0, all.len() - sessions@.len())),
            sessions@.len() <= all.len(),
            sessions@ == all.subrange(all.len() - sessions@.len(), all.len() as int),
        decreases sessions.len(),
    {
        let ghost done = all.len() - sessions@.len();
        let x = sessions.remove(0);
        lines.push(LogLine::Session(x));
        assert(all.subrange(0, done + 1) =~= all.subrange(0, done).push(x));
        assert(session_lines(all.subrange(0, done + 1)) =~= session_lines(all.subrange(0, done)).push(
            LogLine::Session(x),
        ));
        assert(sessions@ =~= all.subrange(done + 1, all.len() as int));
    }
    assert(all.subrange(0, all.len() as int) =~= all);
    lines.push(LogLine::Verdict);
    assert(lines@ =~= rendered(g));
    lines
}

/// The sessions named by log lines, in order: the list that is serialized for
/// machine consumption.
pub fn log_sessions<S>(lines: Vec<LogLine<S>>) -> (r: Vec<S>)
    ensures
        r@ == sessions_in_log(lines@),
{
    let ghost all = lines@;
    let mut rest = lines;
    let mut out: Vec<S> = Vec::new();
    while rest.len() > 0
        invariant
            out@ == sessions_in_log(all.subrange(0, all.len() - rest@.len())),
            rest@.len() <= all.len(),
            rest@ == all.subrange(all.len() - rest@.len(), all.len() as int),
        decreases rest.len(),
    {
        let ghost done = all.len() - rest@.len();
        let line = rest.remove(0);
        assert(all.subrange(0, done + 1).drop_last() =~= all.subrange(0, done));
        assert(all.subrange(0, done + 1).last() == line);
        match line {
            LogLine::Session(x) => out.push(x),
            _ => {},
        }
        assert(rest@ =~= all.subrange(done + 1, all.len() as int));
    }
    assert(all.subrange(0, all.len() as int) =~= all);
    out
}

} // verus!
