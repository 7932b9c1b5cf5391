//! CSS classes that mark how busy the CPU is.
use crate::decimal::{decimal, u64_to_decimal};
use crate::index_set::views;
use vstd::prelude::*;
use vstd::string::StringExecFns;

verus! {

/// The thresholds 10, 20, 30, ... that a usage percentage reaches.
pub open spec fn usage_steps(percent: int) -> Seq<int> {
    Seq::new(if percent >= 10 { (percent / 10) as nat } else { 0 }, |k: int| 10 * (k + 1))
}

/// `core{index}-usage-{percent}`.
pub open spec fn core_class(index: nat, percent: int) -> Seq<char> {
    seq!['c', 'o', 'r', 'e'] + decimal(index) + seq!['-', 'u', 's', 'a', 'g', 'e', '-']
        + decimal(percent as nat)
}

/// `usage-{percent}`.
pub open spec fn usage_class(percent: int) -> Seq<char> {
    seq!['u', 's', 'a', 'g', 'e', '-'] + decimal(percent as nat)
}

/// The classes of the core at `index`, one per threshold its usage reaches.
pub open spec fn core_step_classes(index: nat, percent: int) -> Seq<Seq<char>> {
    usage_steps(percent).map_values(|p: int| core_class(index, p))
}

/// The classes of all cores, core by core.
pub open spec fn all_core_classes(cores: Seq<i32>) -> Seq<Seq<char>>
    decreases cores.len(),
{
    if cores.len() == 0 {
        Seq::empty()
    } else {
        all_core_classes(cores.drop_last()) + core_step_classes(
            (cores.len() - 1) as nat,
            cores.last() as int,
        )
    }
}

/// The classes of a CPU whose cores are busy by `cores` percent each and which is busy
/// by `overall` percent as a whole: `cpu`, then the classes of each core, then
/// `usage-10`, `usage-20`, ... up to `overall`.
pub open spec fn cpu_classes(cores: Seq<i32>, overall: i32) -> Seq<Seq<char>> {
    seq![seq!['c', 'p', 'u']] + all_core_classes(cores) + usage_steps(overall as int).map_values(
        |p: int| usage_class(p),
    )
}

fn push_literal(s: &mut String, lit: &str)
    ensures
        final(s)@ == old(s)@ + lit@,
{
    s.append(lit);
}

fn make_core_class(index: usize, percent: i64) -> (s: String)
    requires
        percent >= 0,
    ensures
        s@ == core_class(index as nat, percent as int),
{
    let mut s = String::new();
    push_literal(&mut s, "core");
    let idx = u64_to_decimal(index as u64);
    push_literal(&mut s, idx.as_str());
    push_literal(&mut s, "-usage-");
    let pct = u64_to_decimal(percent as u64);
    push_literal(&mut s, pct.as_str());
    proof {
        reveal_strlit("core");
        reveal_strlit("-usage-");
        assert(s@ =~= core_class(index as nat, percent as int));
    }
    s
}

fn make_usage_class(percent: i64) -> (s: String)
    requires
        percent >= 0,
    ensures
        s@ == usage_class(percent as int),
{
    let mut s = String::new();
    push_literal(&mut s, "usage-");
    let pct = u64_to_decimal(percent as u64);
    push_literal(&mut s, pct.as_str());
    proof {
        reveal_strlit("usage-");
        assert(s@ =~= usage_class(percent as int));
    }
    s
}

/// The classes that mark the usage of a CPU, from the usage percentage of each core
/// (`core_usage[i]` for core `i`) and of the whole CPU.
pub fn generate_cpu_classes(core_usage: &Vec<i32>, overall_usage: i32) -> (classes: Vec<String>)
    ensures
        views(classes@) == cpu_classes(core_usage@, overall_usage),
{
    let mut classes: Vec<String> = Vec::new();
    let mut cpu = String::new();
    push_literal(&mut cpu, "cpu");
    proof {
        reveal_strlit("cpu");
    }
    assert(cpu@ =~= seq!['c', 'p', 'u']);
    let ghost cpu_view = cpu@;
    classes.push(cpu);
    assert(views(classes@)[0] == cpu_view);
    assert(views(classes@) =~= seq![seq!['c', 'p', 'u']]);
    let mut i: usize = 0;
    while i < core_usage.len()
        invariant
            0 <= i <= core_usage.len(),
            views(classes@) == seq![seq!['c', 'p', 'u']] + all_core_classes(
                core_usage@.take(i as int),
            ),
        decreases core_usage.len() - i,
    {
        let percent = core_usage[i] as i64;
        let ghost base = views(classes@);
        let ghost steps = usage_steps(percent as int);
        let mut p: i64 = 10;
        while p <= percent
            invariant
                10 <= p,
                p % 10 == 0,
                p == 10 || p <= percent + 10,
                percent <= i32::MAX,
                i < core_usage.len(),
                views(classes@) == base + core_step_classes(i as nat, percent as int).take(
                    p / 10 - 1,
                ),
            decreases percent + 10 - p,
        {
            let ghost before = classes@;
            let c = make_core_class(i, p);
            classes.push(c);
            assert(views(classes@) =~= views(before).push(core_class(i as nat, p as int)));
            assert(core_step_classes(i as nat, percent as int).take(p / 10) =~= core_step_classes(
                i as nat,
                percent as int,
            ).take(p / 10 - 1).push(core_class(i as nat, p as int)));
            p = p + 10;
        }
        assert(core_step_classes(i as nat, percent as int).take(p / 10 - 1) =~= core_step_classes(
            i as nat,
            percent as int,
        ));
        assert(core_usage@.take(i + 1).drop_last() =~= core_usage@.take(i as int));
        assert(core_usage@.take(i + 1).last() == core_usage@[i as int]);
        i = i + 1;
    }
    assert(core_usage@.take(core_usage.len() as int) =~= core_usage@);
    let ghost base = views(classes@);
    let overall = overall_usage as i64;
    let ghost overall_classes = usage_steps(overall as int).map_values(|p: int| usage_class(p));
    let mut p: i64 = 10;
    while p <= overall
        invariant
            10 <= p,
            p % 10 == 0,
            p == 10 || p <= overall + 10,
            overall <= i32::MAX,
            overall_classes == usage_steps(overall as int).map_values(|p: int| usage_class(p)),
            views(classes@) == base + overall_classes.take(p / 10 - 1),
        decreases overall + 10 - p,
    {
        let ghost before = classes@;
        let c = make_usage_class(p);
        classes.push(c);
        assert(views(classes@) =~= views(before).push(usage_class(p as int)));
        assert(overall_classes.take(p / 10) =~= overall_classes.take(p / 10 - 1).push(
            usage_class(p as int),
        ));
        p = p + 10;
    }
    assert(overall_classes.take(p / 10 - 1) =~= overall_classes);
    classes
}

/// A busier CPU only gains classes: the usage classes of a lower percentage are the first
/// ones of a higher percentage.
pub proof fn law_usage_classes_grow(lower: i32, higher: i32)
    requires
        lower <= higher,
    ensures
        usage_steps(lower as int).len() <= usage_steps(higher as int).len(),
        usage_steps(lower as int) == usage_steps(higher as int).take(usage_steps(lower as int).len() as int),
{
    assert(lower >= 10 ==> (lower as int) / 10 <= (higher as int) / 10) by (nonlinear_arith)
        requires
            lower <= higher,
    ;
    assert(usage_steps(lower as int) =~= usage_steps(higher as int).take(
        usage_steps(lower as int).len() as int,
    ));
}

/// A core at `percent` gets one class per full ten percent of usage: exactly
/// `percent / 10` classes (none below 10), the `k`-th being `core{index}-usage-{10 (k + 1)}`.
pub proof fn law_core_classes(index: nat, percent: int)
    ensures
        core_step_classes(index, percent).len() == (if percent >= 10 { percent / 10 } else { 0 }),
        forall|k: int|
            0 <= k < core_step_classes(index, percent).len() ==> #[trigger] core_step_classes(index, percent)[k]
                == seq!['c', 'o', 'r', 'e'] + decimal(index) + seq!['-', 'u', 's', 'a', 'g', 'e', '-']
                + decimal((10 * (k + 1)) as nat),
        percent >= 10 ==> core_step_classes(index, percent).last() == seq!['c', 'o', 'r', 'e'] + decimal(
            index,
        ) + seq!['-', 'u', 's', 'a', 'g', 'e', '-'] + decimal((10 * (percent / 10)) as nat),
{
}

/// The whole CPU at `percent` gets one `usage-{10 (k + 1)}` class per full ten percent:
/// exactly `percent / 10` of them (none below 10), after `cpu` and the classes of the cores.
pub proof fn law_usage_classes(cores: Seq<i32>, percent: i32)
    ensures
        cpu_classes(cores, percent)[0] == seq!['c', 'p', 'u'],
        cpu_classes(cores, percent).len() == 1 + all_core_classes(cores).len() + (if percent >= 10 {
            percent / 10
        } else {
            0
        }),
        forall|k: int|
            0 <= k < (if percent >= 10 { percent / 10 } else { 0 }) ==> #[trigger] cpu_classes(
                cores,
                percent,
            )[1 + all_core_classes(cores).len() + k] == seq!['u', 's', 'a', 'g', 'e', '-'] + decimal(
                (10 * (k + 1)) as nat,
            ),
        forall|k: int|
            0 <= k < all_core_classes(cores).len() ==> #[trigger] cpu_classes(cores, percent)[1 + k]
                == all_core_classes(cores)[k],
{
}

/// The classes of the cores come core by core: those of the cores before the last, then
/// `percent / 10` classes of the last core.
pub proof fn law_all_core_classes(cores: Seq<i32>, percent: i32)
    ensures
        all_core_classes(Seq::<i32>::empty()) == Seq::<Seq<char>>::empty(),
        all_core_classes(cores.push(percent)).len() == all_core_classes(cores).len() + (if percent >= 10 {
            percent / 10
        } else {
            0
        }),
        all_core_classes(cores.push(percent)).take(all_core_classes(cores).len() as int) == all_core_classes(
            cores,
        ),
        forall|k: int|
            0 <= k < (if percent >= 10 { percent / 10 } else { 0 }) ==> #[trigger] all_core_classes(
                cores.push(percent),
            )[all_core_classes(cores).len() + k] == seq!['c', 'o', 'r', 'e'] + decimal(cores.len())
                + seq!['-', 'u', 's', 'a', 'g', 'e', '-'] + decimal((10 * (k + 1)) as nat),
{
    let c = cores.push(percent);
    assert(c.drop_last() =~= cores);
    law_core_classes(cores.len(), percent as int);
    assert(all_core_classes(c).take(all_core_classes(cores).len() as int) =~= all_core_classes(cores));
}

} // verus!

