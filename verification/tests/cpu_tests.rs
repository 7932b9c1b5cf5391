use hitokage_core::cpu::generate_cpu_classes;

fn strings(words: &[&str]) -> Vec<String> {
    words.iter().map(|w| w.to_string()).collect()
}

#[test]
fn cpu_classes_for_idle_cpu() {
    assert_eq!(generate_cpu_classes(&vec![0, 5], 9), strings(&["cpu"]));
}

#[test]
fn cpu_classes_per_core_and_overall() {
    let classes = generate_cpu_classes(&vec![25, 10, 0], 30);
    assert_eq!(
        classes,
        strings(&[
            "cpu",
            "core0-usage-10",
            "core0-usage-20",
            "core1-usage-10",
            "usage-10",
            "usage-20",
            "usage-30",
        ])
    );
}

#[test]
fn cpu_classes_full_load() {
    let classes = generate_cpu_classes(&vec![100], 100);
    assert_eq!(classes.len(), 21);
    assert_eq!(classes[10], "core0-usage-100");
    assert_eq!(classes[20], "usage-100");
}

#[test]
fn cpu_classes_negative_usage_gives_none() {
    assert_eq!(generate_cpu_classes(&vec![-5], -1), strings(&["cpu"]));
}

#[test]
fn cpu_classes_no_cores() {
    assert_eq!(generate_cpu_classes(&vec![], 19), strings(&["cpu", "usage-10"]));
}

#[test]
fn busier_cpu_only_gains_classes() {
    let low = generate_cpu_classes(&vec![], 25);
    let high = generate_cpu_classes(&vec![], 47);
    assert_eq!(low, strings(&["cpu", "usage-10", "usage-20"]));
    assert_eq!(&high[..low.len()], &low[..]);
    assert_eq!(high.len(), 5);
}
