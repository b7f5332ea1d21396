//! Prometheus text exposition of counters and gauges.

use vstd::prelude::*;

use crate::ledger_core::message::push_str;
use crate::ledger_core::text::{push_decimal, push_signed_decimal, spec_decimal, spec_signed_decimal};
use crate::observability::counter::Counter;
use crate::observability::gauge::Gauge;

verus! {

/// The exposition of one metric: its help line, its type line and its sample.
pub open spec fn metric_lines(name: Seq<char>, help: Seq<char>, kind: Seq<char>, sample: Seq<char>) -> Seq<char> {
    "# HELP "@ + name + " "@ + help + "\n"@ + "# TYPE "@ + name + " "@ + kind + "\n"@ + name + " "@ + sample + "\n"@
}

/// The exposition of a counter.
pub open spec fn counter_lines(c: Counter) -> Seq<char> {
    metric_lines(c.spec_name()@, c.spec_help()@, "counter"@, spec_decimal(c.value() as nat))
}

/// The exposition of a gauge.
pub open spec fn gauge_lines(g: Gauge) -> Seq<char> {
    metric_lines(g.spec_name()@, g.spec_help()@, "gauge"@, spec_signed_decimal(g.value() as int))
}

/// The expositions of counters, in order.
pub open spec fn counters_text(cs: Seq<Counter>) -> Seq<char>
    decreases cs.len(),
{
    if cs.len() == 0 {
        Seq::empty()
    } else {
        counters_text(cs.drop_last()) + counter_lines(cs.last())
    }
}

/// The expositions of gauges, in order.
pub open spec fn gauges_text(gs: Seq<Gauge>) -> Seq<char>
    decreases gs.len(),
{
    if gs.len() == 0 {
        Seq::empty()
    } else {
        gauges_text(gs.drop_last()) + gauge_lines(gs.last())
    }
}

/// Appends the exposition of one metric.
fn push_metric(out: &mut String, name: &str, help: &str, kind: &str)
    ensures
        final(out)@ == old(out)@ + "# HELP "@ + name@ + " "@ + help@ + "\n"@ + "# TYPE "@ + name@ + " "@ + kind@ + "\n"@
            + name@ + " "@,
{
    push_str(out, "# HELP ");
    push_str(out, name);
    push_str(out, " ");
    push_str(out, help);
    push_str(out, "\n");
    push_str(out, "# TYPE ");
    push_str(out, name);
    push_str(out, " ");
    push_str(out, kind);
    push_str(out, "\n");
    push_str(out, name);
    push_str(out, " ");
}

/// Appends the exposition of a counter.
pub fn render_counter(out: &mut String, c: &Counter)
    ensures
        final(out)@ == old(out)@ + counter_lines(*c),
{
    push_metric(out, c.name(), c.help(), "counter");
    push_decimal(out, c.get() as u128);
    push_str(out, "\n");
    assert(out@ =~= old(out)@ + counter_lines(*c));
}

/// Appends the exposition of a gauge.
pub fn render_gauge(out: &mut String, g: &Gauge)
    ensures
        final(out)@ == old(out)@ + gauge_lines(*g),
{
    push_metric(out, g.name(), g.help(), "gauge");
    push_signed_decimal(out, g.get() as i128);
    push_str(out, "\n");
    assert(out@ =~= old(out)@ + gauge_lines(*g));
}

/// The exposition of every counter, then every gauge, in order.
pub fn render_scalar_metrics(counters: &[Counter], gauges: &[Gauge]) -> (r: String)
    ensures
        r@ == counters_text(counters@) + gauges_text(gauges@),
{
    let mut out = String::new();
    let mut i: usize = 0;
    while i < counters.len()
        invariant
            i <= counters@.len(),
            out@ == counters_text(counters@.take(i as int)),
        decreases counters@.len() - i,
    {
        proof {
            assert(counters@.take(i as int + 1).drop_last() =~= counters@.take(i as int));
        }
        render_counter(&mut out, &counters[i]);
        i += 1;
    }
    proof {
        assert(counters@.take(counters@.len() as int) =~= counters@);
    }
    let ghost head = out@;
    let mut k: usize = 0;
    while k < gauges.len()
        invariant
            k <= gauges@.len(),
            out@ == head + gauges_text(gauges@.take(k as int)),
        decreases gauges@.len() - k,
    {
        proof {
            assert(gauges@.take(k as int + 1).drop_last() =~= gauges@.take(k as int));
        }
        render_gauge(&mut out, &gauges[k]);
        proof {
            assert(out@ =~= head + gauges_text(gauges@.take(k as int + 1)));
        }
        k += 1;
    }
    proof {
        assert(gauges@.take(gauges@.len() as int) =~= gauges@);
    }
    out
}

} // verus!
