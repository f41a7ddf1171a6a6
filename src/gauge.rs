use vstd::prelude::*;

verus! {

/// The colour of a gauge's bar.
#[derive(Clone, Copy, PartialEq, Eq, Structural, Debug)]
pub enum GaugeColor {
    LightGreen,
    Yellow,
    LightRed,
    Red,
    White,
}

/// The bar colour for a usage percentage: green up to half, then yellow,
/// light red from 75, red from 91, and white for what is not a percentage.
pub open spec fn color_of(percentage: u16) -> GaugeColor {
    if percentage <= 50 {
        GaugeColor::LightGreen
    } else if percentage <= 74 {
        GaugeColor::Yellow
    } else if percentage <= 90 {
        GaugeColor::LightRed
    } else if percentage <= 100 {
        GaugeColor::Red
    } else {
        GaugeColor::White
    }
}

/// Returns a color for Gauge widget's bar based on a percentage
pub fn color_for_percent(percentage: u16) -> (r: GaugeColor)
    ensures
        r == color_of(percentage),
{
    match percentage {
        0..=50 => GaugeColor::LightGreen,
        51..=74 => GaugeColor::Yellow,
        75..=90 => GaugeColor::LightRed,
        91..=100 => GaugeColor::Red,
        _ => GaugeColor::White,
    }
}

/// How many whole hundredths of `total` the amount `used` is, counted in
/// steps of `total / 100` and capped at 100; 0 where `total` is under 100,
/// so that a gauge shows an empty bar rather than failing.
pub open spec fn percent_spec(used: u128, total: u128) -> u16 {
    let step = total / 100;
    if step == 0 {
        0
    } else if used / step >= 100 {
        100
    } else {
        (used / step) as u16
    }
}

/// The share of `total` that `used` is, in whole percent for a gauge.
pub fn usage_percent(used: u128, total: u128) -> (r: u16)
    ensures
        r == percent_spec(used, total),
        r <= 100,
{
    let step = total / 100;
    if step == 0 {
        0
    } else {
        let p = used / step;
        if p >= 100 {
            100
        } else {
            p as u16
        }
    }
}

/// Total space of the disks, each given as (total, available) in bytes.
pub open spec fn total_space(disks: Seq<(u64, u64)>) -> int
    decreases disks.len(),
{
    if disks.len() == 0 {
        0
    } else {
        total_space(disks.drop_last()) + disks.last().0
    }
}

/// Available space of the disks, each given as (total, available) in bytes.
pub open spec fn available_space(disks: Seq<(u64, u64)>) -> int
    decreases disks.len(),
{
    if disks.len() == 0 {
        0
    } else {
        available_space(disks.drop_last()) + disks.last().1
    }
}

proof fn lemma_space_bounds(disks: Seq<(u64, u64)>)
    ensures
        0 <= total_space(disks) <= disks.len() * 0xffff_ffff_ffff_ffff,
        0 <= available_space(disks) <= disks.len() * 0xffff_ffff_ffff_ffff,
    decreases disks.len(),
{
    if disks.len() > 0 {
        lemma_space_bounds(disks.drop_last());
    }
}

/// The space in use out of `total` where `available` is free; none where the
/// provider reports more free space than there is.
pub open spec fn used_space(total: int, available: int) -> int {
    if available <= total {
        total - available
    } else {
        0
    }
}

/// The total, the available and the used space summed over all disks.
pub fn disk_totals(disks: &Vec<(u64, u64)>) -> (r: (u128, u128, u128))
    ensures
        r.0 == total_space(disks@),
        r.1 == available_space(disks@),
        r.2 == used_space(total_space(disks@), available_space(disks@)),
{
    let mut total: u128 = 0;
    let mut available: u128 = 0;
    let mut i: usize = 0;
    while i < disks.len()
        invariant
            i <= disks@.len(),
            total == total_space(disks@.subrange(0, i as int)),
            available == available_space(disks@.subrange(0, i as int)),
        decreases disks@.len() - i,
    {
        proof {
            let next = disks@.subrange(0, i + 1);
            assert(next.drop_last() =~= disks@.subrange(0, i as int));
            lemma_space_bounds(disks@.subrange(0, i as int));
            assert(i * 0xffff_ffff_ffff_ffff + 0xffff_ffff_ffff_ffff < 0x1_0000_0000_0000_0000_0000_0000_0000_0000)
                by (nonlinear_arith)
                requires i < 0x1_0000_0000_0000_0000;
        }
        total = total + disks[i].0 as u128;
        available = available + disks[i].1 as u128;
        i = i + 1;
    }
    assert(disks@.subrange(0, i as int) =~= disks@);
    let used = if available <= total {
        total - available
    } else {
        0
    };
    (total, available, used)
}

} // verus!
