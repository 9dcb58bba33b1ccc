use astrokit::event::{
    clip_visible_phases, lunar_above_horizon_intervals, visible_lunar_eclipse_phases,
    EventEvidence, HorizonEvent, HorizonEventKind, LunarEclipseContactKind, LunarEclipseKind,
    LunarEclipsePhaseInterval,
};
use astrokit::time::{Instant, Tai, TimeInterval};

fn at(n: i128) -> Instant<Tai> {
    Instant::from_tai_nanoseconds_since_1900(n)
}

fn span(a: i128, b: i128) -> TimeInterval<Tai> {
    TimeInterval::new(at(a), at(b)).unwrap()
}

fn event(kind: HorizonEventKind, instant: i128) -> HorizonEvent<Tai, (), (), i64> {
    HorizonEvent::new(kind, at(instant), (), None, EventEvidence::at_sample(at(instant), 0, 1))
}

fn bounds(i: &TimeInterval<Tai>) -> (i128, i128) {
    (i.start().tai_nanoseconds_since_1900(), i.end().tai_nanoseconds_since_1900())
}

#[test]
fn phases_rank_by_nesting_and_describe_contacts() {
    assert_eq!(LunarEclipseKind::Penumbral.rank(), 0);
    assert_eq!(LunarEclipseKind::Partial.rank(), 1);
    assert_eq!(LunarEclipseKind::Total.rank(), 2);
    assert_eq!(LunarEclipseContactKind::PenumbralIngress.description(), "lunar-eclipse P1 contact");
    let phase = LunarEclipsePhaseInterval::new(LunarEclipseKind::Total, span(10, 70));
    assert_eq!(phase.duration().unwrap().as_nanoseconds(), 60);
}

#[test]
fn moonrise_and_moonset_split_the_interval_into_ordered_stretches() {
    let events = vec![
        event(HorizonEventKind::Setting, 20),
        event(HorizonEventKind::UpperTransit, 30),
        event(HorizonEventKind::Rise, 50),
        event(HorizonEventKind::Setting, 70),
        event(HorizonEventKind::Rise, 90),
    ];
    let stretches = lunar_above_horizon_intervals(span(0, 100), &events, true);
    let b: Vec<(i128, i128)> = stretches.iter().map(bounds).collect();
    assert_eq!(b, vec![(0, 20), (50, 70), (90, 100)]);
    for pair in b.windows(2) {
        assert!(pair[0].1 <= pair[1].0);
    }

    let below = lunar_above_horizon_intervals(span(0, 100), &vec![event(HorizonEventKind::Rise, 40)], false);
    assert_eq!(below.iter().map(bounds).collect::<Vec<_>>(), vec![(40, 100)]);
    let never: Vec<HorizonEvent<Tai, (), (), i64>> = Vec::new();
    assert!(lunar_above_horizon_intervals(span(0, 100), &never, false).is_empty());
}

#[test]
fn visible_phases_are_the_overlaps_with_truncation_flags() {
    let phases = vec![
        LunarEclipsePhaseInterval::new(LunarEclipseKind::Penumbral, span(0, 100)),
        LunarEclipsePhaseInterval::new(LunarEclipseKind::Partial, span(20, 80)),
        LunarEclipsePhaseInterval::new(LunarEclipseKind::Total, span(40, 60)),
    ];
    let above = vec![span(10, 50), span(95, 120)];
    let parts = clip_visible_phases(&phases, &above);
    let summary: Vec<(LunarEclipseKind, i128, i128, bool, bool)> = parts
        .iter()
        .map(|p| {
            let (s, e) = bounds(&p.interval());
            (p.kind(), s, e, p.is_truncated_at_start(), p.is_truncated_at_end())
        })
        .collect();
    assert_eq!(
        summary,
        vec![
            (LunarEclipseKind::Penumbral, 10, 50, true, true),
            (LunarEclipseKind::Penumbral, 95, 100, true, false),
            (LunarEclipseKind::Partial, 20, 50, false, true),
            (LunarEclipseKind::Total, 40, 50, false, true),
        ]
    );
    let ordered = visible_lunar_eclipse_phases(&phases, &above);
    let keys: Vec<(i128, LunarEclipseKind)> =
        ordered.iter().map(|p| (bounds(&p.interval()).0, p.kind())).collect();
    assert_eq!(
        keys,
        vec![
            (10, LunarEclipseKind::Penumbral),
            (20, LunarEclipseKind::Partial),
            (40, LunarEclipseKind::Total),
            (95, LunarEclipseKind::Penumbral),
        ]
    );
}
