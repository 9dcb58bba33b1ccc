//! Bracketed astronomical event bookkeeping: options, evidence, classification and calendars.
mod central_path;
mod configuration;
mod error;
mod extremum;
mod global_lunar_eclipse;
mod global_solar_eclipse;
mod horizon;
mod local_solar_eclipse;
mod lunar_eclipse;
mod lunar_phase;
mod period;
mod relative;
mod sealed;
mod search;
mod solar_eclipse;
mod solar_eclipse_path;
mod solar_term;
mod sorting;
mod twilight;

pub use error::Error;
pub use relative::{AstrometricMode, ObservationOrigin, RelativeBodyQuery};
pub use search::{
    angular_max_scan_step, bracket_evidence_consistent, brackets_local_minimum, local_minimum_law, consume_evaluations, push_unique_extremum, LocatedExtremum, next_scan_epoch, push_unique_latest, AngularEventSearchOptions,
    EventEvidence, Events, ExtremumEvidence, ExtremumSearchOptions, LabelledEvent,
};
pub use configuration::{
    configuration_crossing_law, configuration_step, configuration_step_law, crosses_configuration_target, push_unique_configuration_event, sign_of, ConfigurationAction,
    ConfigurationCoordinate, ConfigurationEvent, ConfigurationKind, ConfigurationQuery, ElongationSide,
    ResidualSign, SolarConjunctionKind, StationEvent, StationEvidence, StationKind, StationQuery,
};
pub use central_path::{
    central_interior_samples, central_path_transitions, CentralSolarEclipsePathLimit, GlobalSolarEclipseCentralPath,
    HybridSolarEclipseTransition, CENTRAL_INTERIOR_OFFSET_NANOSECONDS,
};
pub use global_lunar_eclipse::{
    lunar_eclipse_in_interval, lunar_eclipse_seed_interval, order_global_lunar_eclipses, required_lunar_contacts, GlobalLunarEclipse,
    LunarEclipseContact, LunarEclipseMaximum, LUNAR_ECLIPSE_MAXIMUM_HALF_WINDOW_NANOSECONDS,
};
pub use extremum::{
    AngularSeparationExtremumQuery, CoordinateCrossingKind, CoordinateCrossingQuery,
    CoordinateExtremumQuery, DistanceExtremumEvent, DistanceExtremumQuery, EventCoordinate,
    ExtremumKind,
};
pub use horizon::{
    altitude_crossing_kind, classify_horizon_visibility, count_events_of_kind, horizon_max_scan_step, horizon_visibility_law,
    meridian_crossing_kind, segment_findings, HorizonCriterion, SegmentFinding,
    HorizonDiskPoint, HorizonEvent, HorizonEventKind, HorizonEventSearch, HorizonReference,
    HorizonSearchOptions, HorizonVisibility, push_unique_horizon_event,
};
pub use twilight::{
    twilight_events_preserve_order, twilight_state, twilight_state_law, TwilightEvent, TwilightEventKind, TwilightLevel, TwilightSearch,
    TwilightState,
};
pub use lunar_eclipse::{
    above_horizon_stretches_are_ordered, above_horizon_stretches_come_from_rises_and_sets, rises_at, sets_at,
    transits_leave_above_horizon_stretches_unchanged, second_rise_leaves_above_horizon_stretches_unchanged,
    second_set_leaves_above_horizon_stretches_unchanged, classify_lunar_eclipse, clip_visible_phases, visible_phases_are_exactly_the_overlaps, lunar_above_horizon_intervals, order_visible_phases,
    visible_lunar_eclipse_phases, LocalLunarEclipseSample, LunarEclipseContactKind,
    LunarEclipseKind, LunarEclipseModel, LunarEclipsePhaseInterval, LunarEclipseSearchOptions, LunarEclipseSkyBackground,
    LunarShadowConvention,
    LunarEclipseVisibilityOptions, LunarEclipseVisibilityStage, VisibleLunarEclipsePhase,
};
pub use lunar_phase::{
    following_year, moon_phase_index_round_trip, select_year_entries, MoonPhase,
    MoonPhaseAngleEvent, MoonPhaseEvent, MoonPhaseYear, MoonPhaseYearEntry,
};
pub use solar_term::{
    complete_calendar_holds_each_term_once, solar_term_calendar_order, solar_term_index_round_trip, SolarTerm, SolarTermEvent,
    SolarTermYear, SolarTermYearEntry,
};
pub use period::{
    cycle_extremes_bound_the_sample, cycles_from_boundaries, measured_cycles_tile_the_span, AnomalisticMonth, AnomalisticYear, CycleBoundary, CycleEvidence,
    CycleKind, CycleModel, CycleResidual, CycleStatistics, DraconicMonth, DraconicYear,
    EquinoxKind, EquinoxYear, LunarNode, MeasuredCycle, ModeledCycle, SiderealMonth,
    SiderealYear, SynodicMonth, TropicalMonth, TropicalYear,
};
pub use solar_eclipse::{
    classify_local_solar_eclipse,
    LocalSolarEclipseKind, SolarEclipseContactKind, SolarEclipseEarthAttitudeProvenance,
    SolarEclipseModel, SolarEclipseSearchOptions,
};
pub use local_solar_eclipse::{
    local_solar_eclipse_seed_interval, local_solar_eclipses_in_interval, order_local_solar_eclipses,
    required_central_contacts, LocalSolarEclipse, LocalSolarEclipseMaximum, SolarEclipseContact,
    LOCAL_SOLAR_ECLIPSE_MAXIMUM_HALF_WINDOW_NANOSECONDS,
};
pub use solar_eclipse_path::{
    central_path_interval, ensure_within_validity, path_sample_instants, GlobalSolarEclipsePathOptions,
    SolarEclipseCentralPhase,
};
pub use global_solar_eclipse::{
    classify_global_solar_eclipse, is_non_central, BesselianDerivativeMethod, BesselianElementsOptions,
    BesselianFundamentalPlane, BesselianPolynomialOptions,
    CentralSolarEclipseCharacter, CentralSolarEclipsePathLimitKind, GlobalSolarEclipseKind,
};
