//! The scan result model: one `Unit` per discovered project, and `Units`,
//! the full result set of a scan.
use vstd::prelude::*;
use vstd::string::StringExecFns;
use crate::analyze::{AnalysisError, AnalysisUnit, ProjectTarget, ProjectTargetKind};

verus! {

broadcast use vstd::string::group_string_axioms;

/// One discovered project's final outcome: its target, and the analysis
/// findings — `None` when the project was discovered but never analyzed.
pub struct Unit {
    pub findings: Option<Result<AnalysisUnit, AnalysisError>>,
    pub target: ProjectTarget,
}

/// The full result set of one scan, in completion order.
pub struct Units(pub Vec<Unit>);

/// The label of a project-target kind.
pub open spec fn kind_label_spec(k: ProjectTargetKind) -> Seq<char> {
    match k {
        ProjectTargetKind::Setuptools => "Setuptools"@,
    }
}

pub fn kind_label(k: ProjectTargetKind) -> (r: &'static str)
    ensures
        r@ == kind_label_spec(k),
{
    match k {
        ProjectTargetKind::Setuptools => "Setuptools",
    }
}

impl Unit {
    /// The status a unit is reported under: `skipped` when it was never
    /// analyzed, `analyzed` on success, `failed` when every analyzer
    /// failed.
    pub open spec fn status_spec(&self) -> Seq<char> {
        match self.findings {
            None => "skipped"@,
            Some(Ok(_)) => "analyzed"@,
            Some(Err(_)) => "failed"@,
        }
    }

    pub fn status(&self) -> (r: String)
        ensures
            r@ == self.status_spec(),
    {
        match &self.findings {
            None => "skipped".to_string(),
            Some(Ok(_)) => "analyzed".to_string(),
            Some(Err(_)) => "failed".to_string(),
        }
    }

    /// The one-line summary of a unit: `<dir> (<kind>) [<status>]`.
    pub open spec fn summary_spec(&self) -> Seq<char> {
        self.target.dir@ + " ("@ + kind_label_spec(self.target.kind) + ") ["@
            + self.status_spec() + "]"@
    }

    pub fn summarize(&self) -> (r: String)
        ensures
            r@ == self.summary_spec(),
    {
        let mut m = self.target.dir.clone();
        m.append(" (");
        m.append(kind_label(self.target.kind));
        m.append(") [");
        let st = self.status();
        m.append(st.as_str());
        m.append("]");
        m
    }
}

/// The string-escaped form of a text, built character by character.
fn escape_text(s: &str) -> (r: String)
    ensures
        r@ == escaped(s@),
{
    let n = s.unicode_len();
    let mut out = String::new();
    let mut i: usize = 0;
    while i < n
        invariant
            0 <= i <= n,
            n == s@.len(),
            out@ == escaped(s@.subrange(0, i as int)),
        decreases n - i,
    {
        let c = s.get_char(i);
        if c == '"' || c == '\\' {
            out.append("\\");
        }
        out.append(s.substring_char(i, i + 1));
        proof {
            reveal_strlit("\\");
            assert(s@.subrange(0, i + 1).drop_last() =~= s@.subrange(0, i as int));
            assert(s@.subrange(0, i + 1).last() == s@[i as int]);
            assert(s@.subrange(i as int, i + 1) =~= seq![s@[i as int]]);
            assert(out@ =~= escaped(s@.subrange(0, i + 1)));
        }
        i += 1;
    }
    proof {
        assert(s@.subrange(0, n as int) =~= s@);
    }
    out
}

impl Unit {
    /// The JSON report object of one unit: exactly the fields a report
    /// must preserve — dir, manifest, kind, and status — with the dir and
    /// the manifest string-escaped.
    pub open spec fn json_line_spec(&self) -> Seq<char> {
        "{\"dir\":\""@ + escaped(self.target.dir@) + "\",\"manifest\":\""@ + escaped(
            self.target.manifest@,
        ) + "\",\"kind\":\""@ + kind_label_spec(self.target.kind) + "\",\"status\":\""@
            + self.status_spec() + "\"}"@
    }

    pub fn json_line(&self) -> (r: String)
        ensures
            r@ == self.json_line_spec(),
    {
        let mut m = "{\"dir\":\"".to_string();
        let dir = escape_text(self.target.dir.as_str());
        m.append(dir.as_str());
        m.append("\",\"manifest\":\"");
        let manifest = escape_text(self.target.manifest.as_str());
        m.append(manifest.as_str());
        m.append("\",\"kind\":\"");
        m.append(kind_label(self.target.kind));
        m.append("\",\"status\":\"");
        let st = self.status();
        m.append(st.as_str());
        m.append("\"}");
        proof {
            assert(m@ =~= self.json_line_spec());
        }
        m
    }
}

/// The body of the JSON report: the units' objects, comma-separated.
pub open spec fn json_report_body_spec(s: Seq<Unit>) -> Seq<char>
    decreases s.len(),
{
    if s.len() == 0 {
        Seq::empty()
    } else if s.len() == 1 {
        s[0].json_line_spec()
    } else {
        json_report_body_spec(s.drop_last()) + ","@ + s.last().json_line_spec()
    }
}

impl Units {
    /// The JSON report of the whole scan: an array of the units' objects.
    pub open spec fn json_report_spec(&self) -> Seq<char> {
        "["@ + json_report_body_spec(self.0@) + "]"@
    }

    pub fn json_report(&self) -> (r: String)
        ensures
            r@ == self.json_report_spec(),
    {
        let mut m = "[".to_string();
        let mut i: usize = 0;
        while i < self.0.len()
            invariant
                0 <= i <= self.0@.len(),
                m@ == "["@ + json_report_body_spec(self.0@.subrange(0, i as int)),
            decreases self.0@.len() - i,
        {
            if i > 0 {
                m.append(",");
            }
            let line = self.0[i].json_line();
            m.append(line.as_str());
            proof {
                assert(self.0@.subrange(0, i + 1).drop_last() =~= self.0@.subrange(0, i as int));
                assert(self.0@.subrange(0, i + 1).last() == self.0@[i as int]);
                assert(m@ =~= "["@ + json_report_body_spec(self.0@.subrange(0, i + 1)));
            }
            i += 1;
        }
        proof {
            assert(self.0@.subrange(0, self.0@.len() as int) =~= self.0@);
        }
        m.append("]");
        proof {
            assert(m@ =~= self.json_report_spec());
        }
        m
    }

    /// One summary line per unit, in the units' order.
    pub fn summaries(&self) -> (r: Vec<String>)
        ensures
            r@.len() == self.0@.len(),
            forall|i: int| 0 <= i < r@.len() ==> (#[trigger] r@[i])@ == self.0@[i].summary_spec(),
    {
        let mut out: Vec<String> = Vec::new();
        let mut i: usize = 0;
        while i < self.0.len()
            invariant
                0 <= i <= self.0@.len(),
                out@.len() == i,
                forall|k: int|
                    0 <= k < i ==> (#[trigger] out@[k])@ == self.0@[k].summary_spec(),
            decreases self.0@.len() - i,
        {
            out.push(self.0[i].summarize());
            i += 1;
        }
        out
    }

    /// How many units the scan produced.
    pub fn len(&self) -> (n: usize)
        ensures
            n == self.0@.len(),
    {
        self.0.len()
    }
}

/// Whether a text holds neither a quote nor a backslash.
spec fn plain_text(s: Seq<char>) -> bool {
    forall|i: int| 0 <= i < s.len() ==> s[i] != '"' && s[i] != '\\'
}

/// The text with every quote and backslash preceded by a backslash: the
/// JSON string-escaped form.
pub open spec fn escaped(s: Seq<char>) -> Seq<char>
    decreases s.len(),
{
    if s.len() == 0 {
        Seq::empty()
    } else {
        escaped(s.drop_last()) + (if s.last() == '"' || s.last() == '\\' {
            seq!['\\', s.last()]
        } else {
            seq![s.last()]
        })
    }
}

proof fn lemma_escaped_plain(s: Seq<char>)
    requires
        plain_text(s),
    ensures
        escaped(s) == s,
    decreases s.len(),
{
    if s.len() == 0 {
        assert(escaped(s) =~= s);
    } else {
        assert forall|i: int| 0 <= i < s.drop_last().len() implies s.drop_last()[i] != '"'
            && s.drop_last()[i] != '\\' by {
            assert(s.drop_last()[i] == s[i]);
        }
        lemma_escaped_plain(s.drop_last());
        assert(escaped(s) =~= s);
    }
}

proof fn lemma_escaped_front(x: Seq<char>)
    requires
        x.len() > 0,
    ensures
        escaped(x) == (if x[0] == '"' || x[0] == '\\' {
            seq!['\\', x[0]]
        } else {
            seq![x[0]]
        }) + escaped(x.drop_first()),
    decreases x.len(),
{
    let head: Seq<char> = if x[0] == '"' || x[0] == '\\' {
        seq!['\\', x[0]]
    } else {
        seq![x[0]]
    };
    if x.len() == 1 {
        assert(x.drop_last() =~= Seq::<char>::empty());
        assert(x.drop_first() =~= Seq::<char>::empty());
        assert(x.last() == x[0]);
        assert(escaped(x) =~= head + escaped(x.drop_first()));
    } else {
        lemma_escaped_front(x.drop_last());
        assert(x.drop_last()[0] == x[0]);
        assert(x.drop_last().drop_first() =~= x.drop_first().drop_last());
        assert(x.drop_first().last() == x.last());
        assert(escaped(x) =~= head + escaped(x.drop_first()));
    }
}

/// The unescaped text before the first bare quote of `s`.
pub open spec fn take_text(s: Seq<char>) -> Seq<char>
    decreases s.len(),
{
    if s.len() == 0 {
        Seq::empty()
    } else if s[0] == '"' {
        Seq::empty()
    } else if s[0] == '\\' {
        if s.len() == 1 {
            Seq::empty()
        } else {
            seq![s[1]] + take_text(s.skip(2))
        }
    } else {
        seq![s[0]] + take_text(s.skip(1))
    }
}

/// What follows the first bare quote of `s`.
pub open spec fn after_text(s: Seq<char>) -> Seq<char>
    decreases s.len(),
{
    if s.len() == 0 {
        Seq::empty()
    } else if s[0] == '"' {
        s.skip(1)
    } else if s[0] == '\\' {
        if s.len() == 1 {
            Seq::empty()
        } else {
            after_text(s.skip(2))
        }
    } else {
        after_text(s.skip(1))
    }
}

proof fn lemma_text_split(x: Seq<char>, rest: Seq<char>)
    ensures
        take_text(escaped(x) + seq!['"'] + rest) == x,
        after_text(escaped(x) + seq!['"'] + rest) == rest,
    decreases x.len(),
{
    let s = escaped(x) + seq!['"'] + rest;
    if x.len() == 0 {
        assert(escaped(x) =~= Seq::<char>::empty());
        assert(s[0] == '"');
        assert(take_text(s) =~= x);
        assert(s.skip(1) =~= rest);
    } else {
        lemma_escaped_front(x);
        lemma_text_split(x.drop_first(), rest);
        if x[0] == '"' || x[0] == '\\' {
            assert(s[0] == '\\');
            assert(s[1] == x[0]);
            assert(s.skip(2) =~= escaped(x.drop_first()) + seq!['"'] + rest);
            assert(take_text(s) == seq![x[0]] + x.drop_first());
            assert(seq![x[0]] + x.drop_first() =~= x);
        } else {
            assert(s[0] == x[0]);
            assert(s.skip(1) =~= escaped(x.drop_first()) + seq!['"'] + rest);
            assert(take_text(s) == seq![x[0]] + x.drop_first());
            assert(seq![x[0]] + x.drop_first() =~= x);
        }
    }
}

/// `s` without the prefix `p`, when `s` starts with `p`.
pub open spec fn strip_prefix(s: Seq<char>, p: Seq<char>) -> Option<Seq<char>> {
    if s.len() >= p.len() && s.subrange(0, p.len() as int) == p {
        Some(s.skip(p.len() as int))
    } else {
        None
    }
}

/// The report fields of one unit: its target dir, its manifest, its kind
/// label, and its status.
pub open spec fn unit_fields(u: Unit) -> (Seq<char>, Seq<char>, Seq<char>, Seq<char>) {
    (u.target.dir@, u.target.manifest@, kind_label_spec(u.target.kind), u.status_spec())
}

/// Reads one report object from the front of `s`: the unescaped fields in
/// the shape `json_line_spec` emits, and what follows the object.
pub open spec fn parse_json_object(s: Seq<char>) -> Option<
    ((Seq<char>, Seq<char>, Seq<char>, Seq<char>), Seq<char>),
> {
    match strip_prefix(s, "{\"dir\":\""@) {
        None => None,
        Some(t1) => match strip_prefix(after_text(t1), ",\"manifest\":\""@) {
            None => None,
            Some(t2) => match strip_prefix(after_text(t2), ",\"kind\":\""@) {
                None => None,
                Some(t3) => match strip_prefix(after_text(t3), ",\"status\":\""@) {
                    None => None,
                    Some(t4) => match strip_prefix(after_text(t4), "}"@) {
                        None => None,
                        Some(rest) => Some(
                            ((take_text(t1), take_text(t2), take_text(t3), take_text(t4)), rest),
                        ),
                    },
                },
            },
        },
    }
}

/// Reads a single report object back, expecting nothing after it.
pub open spec fn parse_json_line(s: Seq<char>) -> Option<
    (Seq<char>, Seq<char>, Seq<char>, Seq<char>),
> {
    match parse_json_object(s) {
        None => None,
        Some((f, rest)) => if rest == Seq::<char>::empty() {
            Some(f)
        } else {
            None
        },
    }
}

/// Reads `n` report objects, comma-separated, from `s`, after which the
/// array must close.
pub open spec fn parse_json_items(s: Seq<char>, n: nat) -> Option<
    Seq<(Seq<char>, Seq<char>, Seq<char>, Seq<char>)>,
>
    decreases n,
{
    if n == 0 {
        if s == "]"@ {
            Some(Seq::empty())
        } else {
            None
        }
    } else {
        match parse_json_object(s) {
            None => None,
            Some((f, rest)) => {
                let tail = if n == 1 {
                    Some(rest)
                } else {
                    strip_prefix(rest, ","@)
                };
                match tail {
                    None => None,
                    Some(t) => match parse_json_items(t, (n - 1) as nat) {
                        None => None,
                        Some(fs) => Some(seq![f] + fs),
                    },
                }
            },
        }
    }
}

/// Reads a whole report back, given how many units it holds.
pub open spec fn parse_json_report(s: Seq<char>, n: nat) -> Option<
    Seq<(Seq<char>, Seq<char>, Seq<char>, Seq<char>)>,
> {
    match strip_prefix(s, "["@) {
        None => None,
        Some(t) => parse_json_items(t, n),
    }
}

/// Round trip of one report object: parsing a unit's emitted JSON object
/// from the front of any text yields exactly its fields and the text after
/// the object, whatever characters the dir and the manifest hold.
pub proof fn lemma_json_object_round_trip(u: Unit, rest: Seq<char>)
    ensures
        parse_json_object(u.json_line_spec() + rest) == Some((unit_fields(u), rest)),
{
    reveal_strlit("{\"dir\":\"");
    reveal_strlit("\",\"manifest\":\"");
    reveal_strlit("\",\"kind\":\"");
    reveal_strlit("\",\"status\":\"");
    reveal_strlit("\"}");
    reveal_strlit(",\"manifest\":\"");
    reveal_strlit(",\"kind\":\"");
    reveal_strlit(",\"status\":\"");
    reveal_strlit("}");
    reveal_strlit("Setuptools");
    reveal_strlit("skipped");
    reveal_strlit("analyzed");
    reveal_strlit("failed");
    let dir = u.target.dir@;
    let man = u.target.manifest@;
    let kind = kind_label_spec(u.target.kind);
    let status = u.status_spec();
    let s = u.json_line_spec() + rest;
    assert(plain_text(kind));
    assert(plain_text(status));
    lemma_escaped_plain(kind);
    lemma_escaped_plain(status);

    let q: Seq<char> = seq!['"'];
    let r4 = ",\"status\":\""@ + status + q + (seq!['}'] + rest);
    let r3 = ",\"kind\":\""@ + kind + q + r4;
    let r2 = ",\"manifest\":\""@ + escaped(man) + q + r3;
    let t1 = escaped(dir) + q + r2;
    assert(s =~= "{\"dir\":\""@ + t1);
    assert(s.subrange(0, 8) =~= "{\"dir\":\""@);
    assert(s.skip(8) =~= t1);
    assert(strip_prefix(s, "{\"dir\":\""@) == Some(t1));
    lemma_text_split(dir, r2);

    let t2 = escaped(man) + q + r3;
    assert(r2.subrange(0, 13) =~= ",\"manifest\":\""@);
    assert(r2.skip(13) =~= t2);
    assert(strip_prefix(r2, ",\"manifest\":\""@) == Some(t2));
    lemma_text_split(man, r3);

    let t3 = kind + q + r4;
    assert(r3.subrange(0, 9) =~= ",\"kind\":\""@);
    assert(r3.skip(9) =~= t3);
    assert(strip_prefix(r3, ",\"kind\":\""@) == Some(t3));
    lemma_text_split(kind, r4);

    let t4 = status + q + (seq!['}'] + rest);
    assert(r4.subrange(0, 11) =~= ",\"status\":\""@);
    assert(r4.skip(11) =~= t4);
    assert(strip_prefix(r4, ",\"status\":\""@) == Some(t4));
    lemma_text_split(status, seq!['}'] + rest);
    let u4 = seq!['}'] + rest;
    assert(after_text(t4) == u4);
    assert(u4.subrange(0, 1) =~= "}"@);
    assert(u4.skip(1) =~= rest);
    assert(strip_prefix(u4, "}"@) == Some(rest));
}

/// Round trip of one unit's report object on its own: parsing it back
/// yields exactly its target dir, its manifest, its kind label, and its
/// status, whatever characters the dir and the manifest hold.
pub proof fn lemma_json_line_round_trip(u: Unit)
    ensures
        parse_json_line(u.json_line_spec()) == Some(unit_fields(u)),
{
    lemma_json_object_round_trip(u, Seq::empty());
    assert(u.json_line_spec() + Seq::<char>::empty() =~= u.json_line_spec());
}

proof fn lemma_body_front(us: Seq<Unit>)
    requires
        us.len() >= 2,
    ensures
        json_report_body_spec(us) == us[0].json_line_spec() + ","@
            + json_report_body_spec(us.drop_first()),
    decreases us.len(),
{
    if us.len() == 2 {
        assert(us.drop_last() =~= seq![us[0]]);
        assert(us.drop_first() =~= seq![us[1]]);
        assert(seq![us[0]][0] == us[0]);
        assert(seq![us[1]][0] == us[1]);
        assert(json_report_body_spec(seq![us[0]]) == us[0].json_line_spec());
        assert(json_report_body_spec(seq![us[1]]) == us[1].json_line_spec());
        assert(json_report_body_spec(us) == json_report_body_spec(us.drop_last()) + ","@
            + us.last().json_line_spec());
        assert(json_report_body_spec(us) =~= us[0].json_line_spec() + ","@
            + json_report_body_spec(us.drop_first()));
    } else {
        lemma_body_front(us.drop_last());
        assert(us.drop_last()[0] == us[0]);
        assert(us.drop_last().drop_first() =~= us.drop_first().drop_last());
        assert(us.drop_first().last() == us.last());
        assert(us.drop_first().len() >= 2);
        let l0 = us[0].json_line_spec();
        assert(json_report_body_spec(us) == json_report_body_spec(us.drop_last()) + ","@
            + us.last().json_line_spec());
        assert(json_report_body_spec(us.drop_last()) == l0 + ","@ + json_report_body_spec(
            us.drop_last().drop_first(),
        ));
        assert(json_report_body_spec(us.drop_first()) == json_report_body_spec(
            us.drop_first().drop_last(),
        ) + ","@ + us.drop_first().last().json_line_spec());
        assert(json_report_body_spec(us) =~= l0 + ","@ + json_report_body_spec(us.drop_first()));
    }
}

#[verifier::rlimit(100)]
proof fn lemma_json_items_round_trip(us: Seq<Unit>)
    ensures
        parse_json_items(json_report_body_spec(us) + seq![']'], us.len()) == Some(
            us.map_values(|u: Unit| unit_fields(u)),
        ),
    decreases us.len(),
{
    reveal_strlit("]");
    reveal_strlit(",");
    let s = json_report_body_spec(us) + seq![']'];
    if us.len() == 0 {
        assert(s =~= "]"@);
        assert(us.map_values(|u: Unit| unit_fields(u)) =~= Seq::<
            (Seq<char>, Seq<char>, Seq<char>, Seq<char>),
        >::empty());
    } else if us.len() == 1 {
        assert(s =~= us[0].json_line_spec() + seq![']']);
        lemma_json_object_round_trip(us[0], seq![']']);
        assert(seq![']'] =~= "]"@);
        assert(seq![unit_fields(us[0])] + Seq::<
            (Seq<char>, Seq<char>, Seq<char>, Seq<char>),
        >::empty() =~= us.map_values(|u: Unit| unit_fields(u)));
    } else {
        lemma_body_front(us);
        let rest = ","@ + json_report_body_spec(us.drop_first()) + seq![']'];
        assert(s =~= us[0].json_line_spec() + rest);
        lemma_json_object_round_trip(us[0], rest);
        assert(rest.subrange(0, 1) =~= ","@);
        assert(rest.skip(1) =~= json_report_body_spec(us.drop_first()) + seq![']']);
        assert(strip_prefix(rest, ","@) == Some(
            json_report_body_spec(us.drop_first()) + seq![']'],
        ));
        lemma_json_items_round_trip(us.drop_first());
        assert(seq![unit_fields(us[0])] + us.drop_first().map_values(|u: Unit| unit_fields(u))
            =~= us.map_values(|u: Unit| unit_fields(u)));
    }
}

/// Round trip of the whole report: parsing the emitted JSON array back,
/// knowing how many units it holds, yields each unit's target dir,
/// manifest, kind label, and status, in order, whatever characters the
/// dirs and the manifests hold.
pub proof fn lemma_json_report_round_trip(units: Units)
    ensures
        parse_json_report(units.json_report_spec(), units.0@.len()) == Some(
            units.0@.map_values(|u: Unit| unit_fields(u)),
        ),
{
    reveal_strlit("[");
    reveal_strlit("]");
    let s = units.json_report_spec();
    assert(s.subrange(0, 1) =~= "["@);
    assert(s.skip(1) =~= json_report_body_spec(units.0@) + seq![']']);
    assert(strip_prefix(s, "["@) == Some(json_report_body_spec(units.0@) + seq![']']));
    lemma_json_items_round_trip(units.0@);
}

} // verus!
