use collector::metrics::{Metrics, MetricsError};
use collector::rat::Rat;
use collector::raw::{RawLoc, RawMetrics, RawSum};

fn rat(num: i128, den: i128) -> Rat {
    Rat { num, den }
}

fn payload(sloc: i128, cyclomatic: i128) -> RawMetrics {
    RawMetrics {
        nargs: None,
        nexits: None,
        cognitive: None,
        cyclomatic: Some(RawSum { sum: Some(rat(cyclomatic, 1)) }),
        halstead: None,
        loc: Some(RawLoc {
            sloc: Some(rat(sloc, 1)),
            ploc: None,
            lloc: None,
            cloc: None,
            blank: None,
        }),
        nom: None,
        mi: None,
    }
}

fn acc(sloc: i128, cyclomatic: i128) -> Metrics {
    Metrics::from_value(&payload(sloc, cyclomatic)).unwrap()
}

#[test]
fn from_value_reads_values_and_counts_one_sample() {
    let m = acc(15, 7);
    assert_eq!(m.count, 1);
    assert_eq!(m.sloc, rat(15, 1));
    assert_eq!(m.cyclomatic, rat(7, 1));
}

#[test]
fn from_value_missing_group_reads_as_zero() {
    let m = acc(15, 7);
    assert_eq!(m.nargs, rat(0, 1));
    assert_eq!(m.halstead_volume, rat(0, 1));
    assert_eq!(m.mi_original, rat(0, 1));
}

#[test]
fn from_value_missing_value_in_present_group_reads_as_zero() {
    let m = acc(15, 7);
    assert_eq!(m.ploc, rat(0, 1));
    assert_eq!(m.blank, rat(0, 1));
}

#[test]
fn from_value_rejects_a_value_that_is_no_number() {
    let mut p = payload(15, 7);
    p.loc = Some(RawLoc {
        sloc: Some(rat(1, 0)),
        ploc: None,
        lloc: None,
        cloc: None,
        blank: None,
    });
    assert_eq!(Metrics::from_value(&p), Err(MetricsError::InvalidNumber));
}

#[test]
fn merge_sums_fields_and_counts() {
    let m = acc(3, 5).merge(&acc(4, 6)).unwrap();
    assert_eq!(m.count, 2);
    assert_eq!(m.sloc, rat(7, 1));
    assert_eq!(m.cyclomatic, rat(11, 1));
}

#[test]
fn merge_is_commutative() {
    let a = acc(3, 5);
    let b = acc(4, 6);
    assert_eq!(a.merge(&b).unwrap(), b.merge(&a).unwrap());
}

#[test]
fn merge_is_associative() {
    let a = acc(3, 5);
    let b = acc(4, 6);
    let c = acc(9, 2);
    let left = a.merge(&b).unwrap().merge(&c).unwrap();
    let right = a.merge(&b.merge(&c).unwrap()).unwrap();
    assert_eq!(left, right);
}

#[test]
fn merge_partitions_agree() {
    // merging [a, b] then [c] gives the same accumulator as [a] then [b, c]
    let a = acc(1, 2);
    let b = acc(3, 4);
    let c = acc(5, 6);
    let first = a.merge(&b).unwrap().merge(&c).unwrap();
    let second = a.merge(&b.merge(&c).unwrap()).unwrap();
    assert_eq!(first, second);
    assert_eq!(first.count, 3);
}

#[test]
fn merge_overflow_is_reported() {
    let mut big = acc(0, 0);
    big.sloc = rat(i128::MAX, 1);
    assert_eq!(big.merge(&acc(1, 0)), None);
}

#[test]
fn weigh_scales_density_fields_only() {
    let m = acc(15, 10);
    let w = m.weigh(rat(2, 20)).unwrap();
    assert_eq!(w.sloc, rat(15, 1));
    assert_eq!(w.cyclomatic, rat(20, 20));
    assert_eq!(w.count, 1);
}

#[test]
fn weigh_twice_equals_weigh_by_product() {
    let m = acc(15, 10);
    let w1 = rat(2, 3);
    let w2 = rat(5, 7);
    let twice = m.weigh(w1).unwrap().weigh(w2).unwrap();
    let once = m.weigh(w1.checked_mul(w2).unwrap()).unwrap();
    assert_eq!(twice, once);
}

#[test]
fn weigh_keeps_size_fields_for_any_weights() {
    let m = acc(15, 10);
    let w = m.weigh(rat(7, 9)).unwrap();
    assert_eq!(w.sloc, m.sloc);
    assert_eq!(w.nargs, m.nargs);
    assert_eq!(w.functions, m.functions);
    assert_eq!(w.blank, m.blank);
}

#[test]
fn avg_divides_by_the_sample_count() {
    let m = acc(3, 5).merge(&acc(4, 6)).unwrap();
    let a = m.avg().unwrap();
    assert_eq!(a.sloc, rat(7, 2));
    assert_eq!(a.cyclomatic, rat(11, 2));
    assert_eq!(a.count, 0);
}

#[test]
fn avg_of_no_samples_is_undefined() {
    assert_eq!(Metrics::zero().avg(), None);
}

#[test]
fn rat_checked_ops_are_exact() {
    assert_eq!(rat(1, 2).checked_add(rat(1, 3)).unwrap(), rat(5, 6));
    assert_eq!(rat(2, 3).checked_mul(rat(3, 4)).unwrap(), rat(6, 12));
    assert_eq!(rat(5, 2).checked_div_count(3).unwrap(), rat(5, 6));
    assert_eq!(rat(i128::MAX, 1).checked_add(rat(1, 2)), None);
}
