use vstd::prelude::*;
use vstd::string::StringExecFns;

use crate::cache::{pairs_view, EntryView};
use crate::emitter::{help_line, sample_line, spec_def_lookup, type_line, Emitter, StatView};
use crate::fmt::spec_dec_i64;
use crate::record::RecordAcuriteTower;

verus! {

/// The temperature metric definition.
pub open spec fn temp_stat() -> StatView {
    StatView {
        name: "temperature_degrees_celsius"@,
        typ: "gauge"@,
        desc: "temperature in degrees celsius"@,
        label_name: "location"@,
    }
}

/// The humidity metric definition.
pub open spec fn humidity_stat() -> StatView {
    StatView {
        name: "temperature_humidity_percent"@,
        typ: "gauge"@,
        desc: "relative humidity"@,
        label_name: "location"@,
    }
}

/// The battery metric definition.
pub open spec fn battery_stat() -> StatView {
    StatView {
        name: "temperature_battery_ok"@,
        typ: "gauge"@,
        desc: "sensor battery health"@,
        label_name: "location"@,
    }
}

/// The location label of a known sensor id; readings from any other sensor
/// are skipped in the exposition.
pub open spec fn spec_location(id: Seq<char>) -> Option<Seq<char>> {
    if id == "acurite-tower-00005019-c"@ {
        Some("garage-door"@)
    } else if id == "acurite-tower-00007276-b"@ {
        Some("interior-door"@)
    } else if id == "acurite-tower-00011771-a"@ {
        Some("machine-room"@)
    } else {
        None
    }
}

/// Map a sensor id to its location label.
pub fn location_for(id: &String) -> (r: Option<&'static str>)
    ensures
        match r {
            Some(l) => spec_location(id@) == Some(l@),
            None => spec_location(id@) is None,
        },
{
    let ga = String::from_str("acurite-tower-00005019-c");
    let int_door = String::from_str("acurite-tower-00007276-b");
    let mach = String::from_str("acurite-tower-00011771-a");
    if *id == ga {
        Some("garage-door")
    } else if *id == int_door {
        Some("interior-door")
    } else if *id == mach {
        Some("machine-room")
    } else {
        None
    }
}

/// One emission step: the sample, preceded by the metric's two header lines
/// when they are not yet written.
pub open spec fn spec_emit_step(
    printed: Seq<Seq<char>>,
    out: Seq<char>,
    st: StatView,
    label_value: Seq<char>,
    value_text: Seq<char>,
) -> (Seq<Seq<char>>, Seq<char>) {
    let header = if printed.contains(st.name) {
        Seq::<char>::empty()
    } else {
        type_line(st) + help_line(st)
    };
    let printed2 = if printed.contains(st.name) {
        printed
    } else {
        printed.push(st.name)
    };
    (printed2, out + header + sample_line(st, label_value, value_text))
}

/// What one snapshot entry adds to the exposition: nothing for an unknown
/// sensor; otherwise its temperature, humidity and battery samples, in that
/// order.
pub open spec fn spec_apply_entry(printed: Seq<Seq<char>>, out: Seq<char>, e: EntryView) -> (
    Seq<Seq<char>>,
    Seq<char>,
) {
    match spec_location(e.0) {
        None => (printed, out),
        Some(loc) => {
            let s1 = spec_emit_step(printed, out, temp_stat(), loc, e.1.temperature_c);
            let s2 = spec_emit_step(s1.0, s1.1, humidity_stat(), loc, e.1.humidity);
            spec_emit_step(s2.0, s2.1, battery_stat(), loc, spec_dec_i64(e.1.battery_ok as int))
        },
    }
}

/// The exposition state after a sequence of snapshot entries.
pub open spec fn spec_render_entries(
    printed: Seq<Seq<char>>,
    out: Seq<char>,
    entries: Seq<EntryView>,
) -> (Seq<Seq<char>>, Seq<char>)
    decreases entries.len(),
{
    if entries.len() == 0 {
        (printed, out)
    } else {
        let s = spec_apply_entry(printed, out, entries[0]);
        spec_render_entries(s.0, s.1, entries.drop_first())
    }
}

/// The full metrics exposition text for one snapshot.
pub open spec fn spec_render(entries: Seq<EntryView>) -> Seq<char> {
    spec_render_entries(Seq::<Seq<char>>::empty(), Seq::<char>::empty(), entries).1
}

/// Render one cache snapshot as the metrics exposition text.
pub fn render_metrics(entries: &Vec<(String, RecordAcuriteTower)>) -> (r: String)
    ensures
        r@ == spec_render(pairs_view(entries@)),
{
    let ghost pv = pairs_view(entries@);
    let mut e = Emitter::new();
    e.define(
        "temperature_degrees_celsius",
        "gauge",
        "temperature in degrees celsius",
        "location",
    );
    e.define("temperature_humidity_percent", "gauge", "relative humidity", "location");
    e.define("temperature_battery_ok", "gauge", "sensor battery health", "location");
    proof {
        reveal_strlit("temperature_degrees_celsius");
        reveal_strlit("temperature_humidity_percent");
        reveal_strlit("temperature_battery_ok");
        lemma_three_defs(e.defs());
        assert(e.printed_names() == Seq::<Seq<char>>::empty());
        assert(e.out_text() == Seq::<char>::empty());
        assert(pv.skip(0) =~= pv);
    }
    let n = entries.len();
    let mut j: usize = 0;
    while j < n
        invariant
            n == entries.len(),
            0 <= j <= n,
            pv == pairs_view(entries@),
            pv.len() == entries@.len(),
            e.defs() == seq![temp_stat(), humidity_stat(), battery_stat()],
            e.wf(),
            spec_render_entries(Seq::<Seq<char>>::empty(), Seq::<char>::empty(), pv)
                == spec_render_entries(e.printed_names(), e.out_text(), pv.skip(j as int)),
        decreases n - j,
    {
        let ghost st0 = (e.printed_names(), e.out_text());
        proof {
            assert(pv.skip(j as int)[0] == pv[j as int]);
            assert(pv.skip(j as int).drop_first() =~= pv.skip(j as int + 1));
            assert(pv[j as int] == (entries@[j as int].0@, entries@[j as int].1@));
        }
        match location_for(&entries[j].0) {
            None => {
                proof {
                    assert(spec_apply_entry(st0.0, st0.1, pv[j as int]) == st0);
                }
            },
            Some(loc) => {
                proof {
                    lemma_three_lookups(e.defs());
                }
                e.emit_text(
                    "temperature_degrees_celsius",
                    loc,
                    entries[j].1.temperature_c.as_str(),
                );
                proof {
                    assert((e.printed_names(), e.out_text()) == spec_emit_step(
                        st0.0,
                        st0.1,
                        temp_stat(),
                        loc@,
                        pv[j as int].1.temperature_c,
                    ));
                }
                let ghost st1 = (e.printed_names(), e.out_text());
                e.emit_text("temperature_humidity_percent", loc, entries[j].1.humidity.as_str());
                proof {
                    assert((e.printed_names(), e.out_text()) == spec_emit_step(
                        st1.0,
                        st1.1,
                        humidity_stat(),
                        loc@,
                        pv[j as int].1.humidity,
                    ));
                }
                let ghost st2 = (e.printed_names(), e.out_text());
                e.emit_i64("temperature_battery_ok", loc, entries[j].1.battery_ok);
                proof {
                    assert((e.printed_names(), e.out_text()) == spec_emit_step(
                        st2.0,
                        st2.1,
                        battery_stat(),
                        loc@,
                        spec_dec_i64(pv[j as int].1.battery_ok as int),
                    ));
                    assert(spec_apply_entry(st0.0, st0.1, pv[j as int]) == (
                        e.printed_names(),
                        e.out_text(),
                    ));
                }
            },
        }
        j = j + 1;
    }
    proof {
        assert(pv.skip(n as int) =~= Seq::<EntryView>::empty());
    }
    String::from_str(e.out())
}

proof fn lemma_three_defs(d: Seq<StatView>)
    requires
        d == spec_def_upsert_three(),
    ensures
        d == seq![temp_stat(), humidity_stat(), battery_stat()],
{
    lemma_three_shape();
}

/// The definitions after the three defines of the exposition, in order.
pub open spec fn spec_def_upsert_three() -> Seq<StatView> {
    crate::emitter::spec_def_upsert(
        crate::emitter::spec_def_upsert(
            crate::emitter::spec_def_upsert(Seq::<StatView>::empty(), temp_stat()),
            humidity_stat(),
        ),
        battery_stat(),
    )
}

proof fn lemma_three_shape()
    ensures
        spec_def_upsert_three() == seq![temp_stat(), humidity_stat(), battery_stat()],
{
    reveal_strlit("temperature_degrees_celsius");
    reveal_strlit("temperature_humidity_percent");
    reveal_strlit("temperature_battery_ok");
    assert(temp_stat().name.len() == 27);
    assert(humidity_stat().name.len() == 28);
    assert(battery_stat().name.len() == 22);
    let u1 = crate::emitter::spec_def_upsert(Seq::<StatView>::empty(), temp_stat());
    assert(u1 == seq![temp_stat()]);
    let u2 = crate::emitter::spec_def_upsert(u1, humidity_stat());
    assert(u1[0].name != humidity_stat().name);
    assert(u1.drop_first() =~= Seq::<StatView>::empty());
    assert(crate::emitter::spec_def_upsert(Seq::<StatView>::empty(), humidity_stat())
        == seq![humidity_stat()]);
    assert(u2 =~= seq![temp_stat(), humidity_stat()]);
    let u3 = crate::emitter::spec_def_upsert(u2, battery_stat());
    assert(u2[0].name != battery_stat().name);
    assert(u2.drop_first() =~= seq![humidity_stat()]);
    assert(seq![humidity_stat()][0].name != battery_stat().name);
    assert(seq![humidity_stat()].drop_first() =~= Seq::<StatView>::empty());
    assert(crate::emitter::spec_def_upsert(Seq::<StatView>::empty(), battery_stat())
        == seq![battery_stat()]);
    assert(crate::emitter::spec_def_upsert(seq![humidity_stat()], battery_stat())
        =~= seq![humidity_stat(), battery_stat()]);
    assert(u3 =~= seq![temp_stat(), humidity_stat(), battery_stat()]);
}

proof fn lemma_three_lookups(d: Seq<StatView>)
    requires
        d == seq![temp_stat(), humidity_stat(), battery_stat()],
    ensures
        spec_def_lookup(d, temp_stat().name) == Some(temp_stat()),
        spec_def_lookup(d, humidity_stat().name) == Some(humidity_stat()),
        spec_def_lookup(d, battery_stat().name) == Some(battery_stat()),
{
    reveal_strlit("temperature_degrees_celsius");
    reveal_strlit("temperature_humidity_percent");
    reveal_strlit("temperature_battery_ok");
    assert(temp_stat().name.len() == 27);
    assert(humidity_stat().name.len() == 28);
    assert(battery_stat().name.len() == 22);
    assert(d[0] == temp_stat());
    assert(d.drop_first() =~= seq![humidity_stat(), battery_stat()]);
    assert(d.drop_first()[0] == humidity_stat());
    assert(d.drop_first().drop_first() =~= seq![battery_stat()]);
    assert(seq![battery_stat()][0] == battery_stat());
    assert(spec_def_lookup(d.drop_first().drop_first(), battery_stat().name) == Some(
        battery_stat(),
    ));
    assert(spec_def_lookup(d.drop_first(), humidity_stat().name) == Some(humidity_stat()));
    assert(spec_def_lookup(d.drop_first(), battery_stat().name) == Some(battery_stat()));
}

} // verus!
