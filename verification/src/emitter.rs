use vstd::prelude::*;
use vstd::string::StringExecFns;

use crate::fmt::{i64_to_dec, spec_dec_i64};

verus! {

/// One metric definition: exposition name, type, description and the name
/// of its one label.
pub struct EmitterStat {
    pub name: String,
    pub typ: String,
    pub desc: String,
    pub label_name: String,
}

/// Mathematical image of a metric definition.
pub struct StatView {
    pub name: Seq<char>,
    pub typ: Seq<char>,
    pub desc: Seq<char>,
    pub label_name: Seq<char>,
}

impl View for EmitterStat {
    type V = StatView;

    open spec fn view(&self) -> StatView {
        StatView {
            name: self.name@,
            typ: self.typ@,
            desc: self.desc@,
            label_name: self.label_name@,
        }
    }
}

/// The "# TYPE" header line of a definition.
pub open spec fn type_line(s: StatView) -> Seq<char> {
    "# TYPE "@ + s.name + " "@ + s.typ + "\n"@
}

/// The "# HELP" header line of a definition.
pub open spec fn help_line(s: StatView) -> Seq<char> {
    "# HELP "@ + s.name + " "@ + s.desc + "\n"@
}

/// One sample line: the metric name, its single label and value, and the
/// rendered reading.
pub open spec fn sample_line(s: StatView, label_value: Seq<char>, value_text: Seq<char>) -> Seq<
    char,
> {
    s.name + "{"@ + s.label_name + "=\""@ + label_value + "\"}\t"@ + value_text + "\n"@
}

/// The definition stored under `name`, if any (first match).
pub open spec fn spec_def_lookup(s: Seq<StatView>, name: Seq<char>) -> Option<StatView>
    decreases s.len(),
{
    if s.len() == 0 {
        None
    } else if s[0].name == name {
        Some(s[0])
    } else {
        spec_def_lookup(s.drop_first(), name)
    }
}

/// The definitions with the one named as `v` replaced in place, or appended
/// when that name is new.
pub open spec fn spec_def_upsert(s: Seq<StatView>, v: StatView) -> Seq<StatView>
    decreases s.len(),
{
    if s.len() == 0 {
        seq![v]
    } else if s[0].name == v.name {
        seq![v] + s.drop_first()
    } else {
        seq![s[0]] + spec_def_upsert(s.drop_first(), v)
    }
}

proof fn lemma_def_lookup_at(s: Seq<StatView>, n: Seq<char>, k: int)
    requires
        0 <= k < s.len(),
        s[k].name == n,
        forall|j: int| 0 <= j < k ==> s[j].name != n,
    ensures
        spec_def_lookup(s, n) == Some(s[k]),
    decreases k,
{
    if k > 0 {
        assert forall|j: int| 0 <= j < k - 1 implies s.drop_first()[j].name != n by {
            assert(s.drop_first()[j] == s[j + 1]);
        }
        assert(s.drop_first()[k - 1] == s[k]);
        lemma_def_lookup_at(s.drop_first(), n, k - 1);
    }
}

proof fn lemma_def_lookup_none(s: Seq<StatView>, n: Seq<char>)
    requires
        forall|j: int| 0 <= j < s.len() ==> s[j].name != n,
    ensures
        spec_def_lookup(s, n) is None,
    decreases s.len(),
{
    if s.len() > 0 {
        assert forall|j: int| 0 <= j < s.drop_first().len() implies s.drop_first()[j].name
            != n by {
            assert(s.drop_first()[j] == s[j + 1]);
        }
        lemma_def_lookup_none(s.drop_first(), n);
    }
}

proof fn lemma_def_upsert_skip(s: Seq<StatView>, v: StatView, i: int)
    requires
        0 <= i <= s.len(),
        forall|j: int| 0 <= j < i ==> s[j].name != v.name,
    ensures
        spec_def_upsert(s, v) == s.take(i) + spec_def_upsert(s.skip(i), v),
    decreases i,
{
    if i == 0 {
        assert(s.skip(0) =~= s);
        assert(s.take(0) + spec_def_upsert(s, v) =~= spec_def_upsert(s, v));
    } else {
        lemma_def_upsert_skip(s, v, i - 1);
        assert(s.skip(i - 1)[0] == s[i - 1]);
        assert(s.skip(i - 1).drop_first() =~= s.skip(i));
        assert(spec_def_upsert(s.skip(i - 1), v) == seq![s[i - 1]] + spec_def_upsert(s.skip(i), v));
        assert(s.take(i - 1) + (seq![s[i - 1]] + spec_def_upsert(s.skip(i), v)) =~= s.take(i)
            + spec_def_upsert(s.skip(i), v));
    }
}

/// Defining a metric never removes an existing name: everything defined
/// before stays defined, and the new name is defined.
pub proof fn lemma_def_upsert_defined(s: Seq<StatView>, v: StatView, n: Seq<char>)
    ensures
        spec_def_lookup(spec_def_upsert(s, v), n) is Some <==> (spec_def_lookup(s, n) is Some || n
            == v.name),
    decreases s.len(),
{
    reveal_with_fuel(spec_def_lookup, 3);
    if s.len() == 0 {
        assert(seq![v][0] == v);
        assert(seq![v].drop_first() =~= Seq::<StatView>::empty());
        assert(spec_def_lookup(Seq::<StatView>::empty(), n) is None);
    } else if s[0].name == v.name {
        assert((seq![v] + s.drop_first())[0] == v);
        assert((seq![v] + s.drop_first()).drop_first() =~= s.drop_first());
        lemma_def_upsert_defined(s.drop_first(), v, n);
        if n != v.name && n != s[0].name {
            assert(spec_def_lookup(s, n) == spec_def_lookup(s.drop_first(), n));
        }
    } else {
        assert((seq![s[0]] + spec_def_upsert(s.drop_first(), v))[0] == s[0]);
        assert((seq![s[0]] + spec_def_upsert(s.drop_first(), v)).drop_first() =~= spec_def_upsert(
            s.drop_first(),
            v,
        ));
        lemma_def_upsert_defined(s.drop_first(), v, n);
    }
}

/// Accumulates a metrics exposition text: metric definitions, the set of
/// metrics whose headers are already written, and the output text. Headers
/// are written once, just before a metric's first sample.
pub struct Emitter {
    typedefs: Vec<EmitterStat>,
    printed: Vec<String>,
    out: String,
}

impl Emitter {
    /// The definitions, in first-definition order.
    pub closed spec fn defs(&self) -> Seq<StatView> {
        self.typedefs@.map(|i: int, e: EmitterStat| e@)
    }

    /// The names whose headers are already written, in order of writing.
    pub closed spec fn printed_names(&self) -> Seq<Seq<char>> {
        self.printed@.map(|i: int, s: String| s@)
    }

    /// The exposition text accumulated so far.
    pub closed spec fn out_text(&self) -> Seq<char> {
        self.out@
    }

    pub open spec fn defined(&self, name: Seq<char>) -> bool {
        spec_def_lookup(self.defs(), name) is Some
    }

    pub open spec fn printed_has(&self, name: Seq<char>) -> bool {
        self.printed_names().contains(name)
    }

    /// Every metric whose header is written is defined.
    pub open spec fn wf(&self) -> bool {
        forall|i: int|
            0 <= i < self.printed_names().len() ==> spec_def_lookup(
                self.defs(),
                self.printed_names()[i],
            ) is Some
    }

    /// An empty emitter: nothing defined, nothing printed, empty output.
    pub fn new() -> (e: Emitter)
        ensures
            e.defs() == Seq::<StatView>::empty(),
            e.printed_names() == Seq::<Seq<char>>::empty(),
            e.out_text() == Seq::<char>::empty(),
            e.wf(),
    {
        let e = Emitter { typedefs: Vec::new(), printed: Vec::new(), out: String::new() };
        proof {
            assert(e.defs() =~= Seq::<StatView>::empty());
            assert(e.printed_names() =~= Seq::<Seq<char>>::empty());
        }
        e
    }

    /// Define (or redefine) a metric under `stat_name`. Output and printed
    /// state are untouched.
    pub fn define(&mut self, stat_name: &str, stat_type: &str, stat_desc: &str, label_name: &str)
        ensures
            final(self).defs() == spec_def_upsert(
                old(self).defs(),
                (StatView {
                    name: stat_name@,
                    typ: stat_type@,
                    desc: stat_desc@,
                    label_name: label_name@,
                }),
            ),
            final(self).printed_names() == old(self).printed_names(),
            final(self).out_text() == old(self).out_text(),
            old(self).wf() ==> final(self).wf(),
    {
        let ghost d0 = self.defs();
        let ghost gv = StatView {
            name: stat_name@,
            typ: stat_type@,
            desc: stat_desc@,
            label_name: label_name@,
        };
        let target = String::from_str(stat_name);
        let stat = EmitterStat {
            name: target,
            typ: String::from_str(stat_type),
            desc: String::from_str(stat_desc),
            label_name: String::from_str(label_name),
        };
        let n = self.typedefs.len();
        let mut hit: usize = n;
        let mut i: usize = 0;
        while i < n
            invariant
                n == self.typedefs.len(),
                0 <= i <= n,
                self.defs() == d0,
                stat@ == gv,
                hit == n || (hit < i && d0[hit as int].name == gv.name),
                hit == n ==> forall|j: int| 0 <= j < i ==> d0[j].name != gv.name,
                hit < n ==> forall|j: int| 0 <= j < hit ==> d0[j].name != gv.name,
            decreases n - i,
        {
            if hit == n && self.typedefs[i].name == stat.name {
                hit = i;
            }
            i = i + 1;
        }
        if hit < n {
            let k = hit;
            let _old = self.typedefs.remove(k);
            self.typedefs.insert(k, stat);
            proof {
                lemma_def_upsert_skip(d0, gv, k as int);
                assert(d0.skip(k as int)[0] == d0[k as int]);
                assert(d0.skip(k as int).drop_first() =~= d0.skip(k as int + 1));
                assert(spec_def_upsert(d0.skip(k as int), gv) == seq![gv] + d0.skip(k as int + 1));
                assert(self.defs() =~= d0.take(k as int) + (seq![gv] + d0.skip(k as int + 1)));
                assert(self.printed_names() =~= old(self).printed_names());
            }
        } else {
            self.typedefs.push(stat);
            proof {
                lemma_def_upsert_skip(d0, gv, d0.len() as int);
                assert(d0.skip(d0.len() as int) =~= Seq::<StatView>::empty());
                assert(d0.take(d0.len() as int) =~= d0);
                assert(spec_def_upsert(Seq::<StatView>::empty(), gv) == seq![gv]);
                assert(self.defs() =~= d0 + seq![gv]);
                assert(self.printed_names() =~= old(self).printed_names());
            }
        }
        proof {
            if old(self).wf() {
                assert forall|i2: int|
                    0 <= i2 < self.printed_names().len() implies spec_def_lookup(
                    self.defs(),
                    self.printed_names()[i2],
                ) is Some by {
                    lemma_def_upsert_defined(d0, gv, self.printed_names()[i2]);
                }
            }
        }
    }

    /// The index of the first definition named `stat_name`.
    fn find_def(&self, stat_name: &str) -> (k: usize)
        requires
            self.defined(stat_name@),
        ensures
            k < self.defs().len(),
            spec_def_lookup(self.defs(), stat_name@) == Some(self.defs()[k as int]),
    {
        let ghost d0 = self.defs();
        let target = String::from_str(stat_name);
        let n = self.typedefs.len();
        let mut hit: usize = n;
        let mut i: usize = 0;
        while i < n
            invariant
                n == self.typedefs.len(),
                0 <= i <= n,
                self.defs() == d0,
                target@ == stat_name@,
                hit == n || (hit < i && d0[hit as int].name == stat_name@),
                hit == n ==> forall|j: int| 0 <= j < i ==> d0[j].name != stat_name@,
                hit < n ==> forall|j: int| 0 <= j < hit ==> d0[j].name != stat_name@,
            decreases n - i,
        {
            if hit == n && self.typedefs[i].name == target {
                hit = i;
            }
            i = i + 1;
        }
        if hit < n {
            proof {
                lemma_def_lookup_at(d0, stat_name@, hit as int);
            }
            hit
        } else {
            proof {
                lemma_def_lookup_none(d0, stat_name@);
                assert(false);
            }
            0
        }
    }

    /// Write the "# TYPE" and "# HELP" headers for `stat_name`, unless they
    /// were already written.
    pub fn emit_header(&mut self, stat_name: &str)
        requires
            old(self).wf(),
            old(self).defined(stat_name@),
        ensures
            final(self).defs() == old(self).defs(),
            old(self).printed_has(stat_name@) ==> final(self).printed_names() == old(
                self,
            ).printed_names() && final(self).out_text() == old(self).out_text(),
            !old(self).printed_has(stat_name@) ==> ({
                let st = spec_def_lookup(old(self).defs(), stat_name@)->0;
                final(self).printed_names() == old(self).printed_names().push(stat_name@)
                    && final(self).out_text() == old(self).out_text() + type_line(st) + help_line(
                    st,
                )
            }),
            final(self).wf(),
    {
        let ghost p0 = self.printed_names();
        let ghost out0 = self.out_text();
        let target = String::from_str(stat_name);
        let np = self.printed.len();
        let mut i: usize = 0;
        let mut seen = false;
        while i < np
            invariant
                np == self.printed.len(),
                0 <= i <= np,
                self.printed_names() == p0,
                target@ == stat_name@,
                seen ==> p0.contains(stat_name@),
                !seen ==> forall|j: int| 0 <= j < i ==> p0[j] != stat_name@,
            decreases np - i,
        {
            if !seen && self.printed[i] == target {
                seen = true;
                proof {
                    assert(p0[i as int] == stat_name@);
                }
            }
            i = i + 1;
        }
        if seen {
            return ;
        }
        proof {
            assert(!p0.contains(stat_name@));
        }
        let k = self.find_def(stat_name);
        let es_name = self.typedefs[k].name.clone();
        let es_typ = self.typedefs[k].typ.clone();
        let es_desc = self.typedefs[k].desc.clone();
        self.out.append("# TYPE ");
        self.out.append(es_name.as_str());
        self.out.append(" ");
        self.out.append(es_typ.as_str());
        self.out.append("\n");
        self.out.append("# HELP ");
        self.out.append(es_name.as_str());
        self.out.append(" ");
        self.out.append(es_desc.as_str());
        self.out.append("\n");
        self.printed.push(target);
        proof {
            let st = spec_def_lookup(old(self).defs(), stat_name@)->0;
            assert(self.out_text() =~= out0 + type_line(st) + help_line(st));
            assert(self.printed_names() =~= p0.push(stat_name@));
            assert forall|i2: int|
                0 <= i2 < self.printed_names().len() implies spec_def_lookup(
                self.defs(),
                self.printed_names()[i2],
            ) is Some by {
                if i2 < p0.len() {
                    assert(self.printed_names()[i2] == p0[i2]);
                } else {
                    assert(self.printed_names()[i2] == stat_name@);
                }
            }
        }
    }

    /// Write one integer-valued sample (with the headers first, on the
    /// metric's first sample).
    pub fn emit_i64(&mut self, stat_name: &str, label_value: &str, val: i64)
        requires
            old(self).wf(),
            old(self).defined(stat_name@),
        ensures
            final(self).defs() == old(self).defs(),
            ({
                let st = spec_def_lookup(old(self).defs(), stat_name@)->0;
                let header = if old(self).printed_has(stat_name@) {
                    Seq::<char>::empty()
                } else {
                    type_line(st) + help_line(st)
                };
                final(self).out_text() == old(self).out_text() + header + sample_line(
                    st,
                    label_value@,
                    spec_dec_i64(val as int),
                ) && final(self).printed_names() == (if old(self).printed_has(stat_name@) {
                    old(self).printed_names()
                } else {
                    old(self).printed_names().push(stat_name@)
                })
            }),
            final(self).wf(),
    {
        let vtext = i64_to_dec(val);
        self.emit_sample(stat_name, label_value, vtext.as_str());
    }

    /// Write one sample whose value text is already rendered (with the
    /// headers first, on the metric's first sample).
    pub fn emit_text(&mut self, stat_name: &str, label_value: &str, value_text: &str)
        requires
            old(self).wf(),
            old(self).defined(stat_name@),
        ensures
            final(self).defs() == old(self).defs(),
            ({
                let st = spec_def_lookup(old(self).defs(), stat_name@)->0;
                let header = if old(self).printed_has(stat_name@) {
                    Seq::<char>::empty()
                } else {
                    type_line(st) + help_line(st)
                };
                final(self).out_text() == old(self).out_text() + header + sample_line(
                    st,
                    label_value@,
                    value_text@,
                ) && final(self).printed_names() == (if old(self).printed_has(stat_name@) {
                    old(self).printed_names()
                } else {
                    old(self).printed_names().push(stat_name@)
                })
            }),
            final(self).wf(),
    {
        self.emit_sample(stat_name, label_value, value_text);
    }

    fn emit_sample(&mut self, stat_name: &str, label_value: &str, value_text: &str)
        requires
            old(self).wf(),
            old(self).defined(stat_name@),
        ensures
            final(self).defs() == old(self).defs(),
            ({
                let st = spec_def_lookup(old(self).defs(), stat_name@)->0;
                let header = if old(self).printed_has(stat_name@) {
                    Seq::<char>::empty()
                } else {
                    type_line(st) + help_line(st)
                };
                final(self).out_text() == old(self).out_text() + header + sample_line(
                    st,
                    label_value@,
                    value_text@,
                ) && final(self).printed_names() == (if old(self).printed_has(stat_name@) {
                    old(self).printed_names()
                } else {
                    old(self).printed_names().push(stat_name@)
                })
            }),
            final(self).wf(),
    {
        let ghost out0 = self.out_text();
        self.emit_header(stat_name);
        let ghost out1 = self.out_text();
        let k = self.find_def(stat_name);
        let es_name = self.typedefs[k].name.clone();
        let es_label = self.typedefs[k].label_name.clone();
        self.out.append(es_name.as_str());
        self.out.append("{");
        self.out.append(es_label.as_str());
        self.out.append("=\"");
        self.out.append(label_value);
        self.out.append("\"}\t");
        self.out.append(value_text);
        self.out.append("\n");
        proof {
            let st = spec_def_lookup(old(self).defs(), stat_name@)->0;
            assert(self.out_text() =~= out1 + sample_line(st, label_value@, value_text@));
            if old(self).printed_has(stat_name@) {
                assert(self.out_text() =~= out0 + Seq::<char>::empty() + sample_line(
                    st,
                    label_value@,
                    value_text@,
                ));
            } else {
                assert(self.out_text() =~= out0 + (type_line(st) + help_line(st)) + sample_line(
                    st,
                    label_value@,
                    value_text@,
                ));
            }
        }
    }

    /// The exposition text accumulated so far.
    pub fn out(&self) -> (r: &str)
        ensures
            r@ == self.out_text(),
    {
        self.out.as_str()
    }
}

} // verus!
