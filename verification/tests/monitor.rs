use screen::config_store::{from_local_config, ConfigPolicy, OverrideSetting};
use screen::monitor::{
    get_poe_monitor_id, get_poe_monitor_id_common, poe_screen, Error, Event, Resolver, Source,
    FALLBACK_MONITOR,
};
use screen::target_config::from_poe_config;

fn run(native_available: bool, window: Option<usize>, setting: OverrideSetting, hint: Option<usize>) -> Resolver {
    Resolver::start(native_available)
        .step(Event::Window(window))
        .step(Event::Override(setting))
        .step(Event::TargetConfig(hint))
}

#[test]
fn window_wins_over_override_and_hint() {
    assert_eq!(get_poe_monitor_id(Some(1), OverrideSetting::Monitor(3), Some(2)), 1);
    assert_eq!(get_poe_monitor_id(Some(0), OverrideSetting::Auto, None), 0);
    assert_eq!(
        run(true, Some(1), OverrideSetting::Monitor(3), Some(2)),
        Resolver::Done { id: 1, source: Source::Window }
    );
}

#[test]
fn override_wins_over_hint() {
    assert_eq!(get_poe_monitor_id(None, OverrideSetting::Monitor(3), Some(2)), 3);
    assert_eq!(get_poe_monitor_id(None, OverrideSetting::Monitor(3), None), 3);
    assert_eq!(get_poe_monitor_id_common(OverrideSetting::Monitor(0), Some(2)), 0);
    for available in [false, true] {
        assert_eq!(
            run(available, None, OverrideSetting::Monitor(3), Some(2)),
            Resolver::Done { id: 3, source: Source::Override }
        );
    }
}

#[test]
fn hint_is_used_with_automatic_detection() {
    assert_eq!(get_poe_monitor_id(None, OverrideSetting::Auto, Some(2)), 2);
    assert_eq!(get_poe_monitor_id_common(OverrideSetting::Auto, Some(2)), 2);
    assert_eq!(
        run(true, None, OverrideSetting::Auto, Some(2)),
        Resolver::Done { id: 2, source: Source::TargetConfig }
    );
}

#[test]
fn fallback_is_zero() {
    assert_eq!(FALLBACK_MONITOR, 0);
    assert_eq!(get_poe_monitor_id(None, OverrideSetting::Auto, None), 0);
    assert_eq!(get_poe_monitor_id_common(OverrideSetting::Auto, None), 0);
    assert_eq!(
        run(false, None, OverrideSetting::Auto, None),
        Resolver::Done { id: 0, source: Source::Fallback }
    );
}

#[test]
fn resolver_asks_the_sources_in_order() {
    let s = Resolver::start(true);
    assert_eq!(s, Resolver::LocateWindow);
    assert_eq!(s.result(), None);
    let s = s.step(Event::Window(None));
    assert_eq!(s, Resolver::ReadOverride);
    let s = s.step(Event::Override(OverrideSetting::Auto));
    assert_eq!(s, Resolver::ReadTargetConfig);
    assert_eq!(s.result(), None);
    let s = s.step(Event::TargetConfig(Some(4)));
    assert_eq!(s, Resolver::Done { id: 4, source: Source::TargetConfig });
    assert_eq!(s.result(), Some(4));
}

#[test]
fn resolver_skips_windows_where_they_cannot_be_enumerated() {
    assert_eq!(Resolver::start(false), Resolver::ReadOverride);
    assert_eq!(Resolver::start(false), Resolver::start(true).step(Event::Window(None)));
    assert_eq!(
        run(false, Some(5), OverrideSetting::Auto, Some(1)),
        run(true, None, OverrideSetting::Auto, Some(1))
    );
}

#[test]
fn resolver_ignores_events_of_sources_not_asked() {
    let s = Resolver::start(true);
    assert_eq!(s.step(Event::Override(OverrideSetting::Monitor(1))), Resolver::LocateWindow);
    assert_eq!(s.step(Event::TargetConfig(Some(1))), Resolver::LocateWindow);
    let s = Resolver::ReadOverride;
    assert_eq!(s.step(Event::Window(Some(1))), Resolver::ReadOverride);
    assert_eq!(s.step(Event::TargetConfig(None)), Resolver::ReadOverride);
    let s = Resolver::ReadTargetConfig;
    assert_eq!(s.step(Event::Window(Some(1))), Resolver::ReadTargetConfig);
    assert_eq!(s.step(Event::Override(OverrideSetting::Monitor(1))), Resolver::ReadTargetConfig);
}

#[test]
fn resolver_stays_done() {
    let done = Resolver::Done { id: 2, source: Source::Override };
    assert_eq!(done.step(Event::Window(Some(1))), done);
    assert_eq!(done.step(Event::Override(OverrideSetting::Monitor(1))), done);
    assert_eq!(done.step(Event::TargetConfig(Some(1))), done);
    assert_eq!(done.step(Event::TargetConfig(None)), done);
}

#[test]
fn end_to_end_nothing_found() {
    let setting = ConfigPolicy::Strict
        .settle(from_local_config(Some("[screenshot]\nscreen = -1\nshortcut = Win+S")))
        .unwrap();
    let hint = from_poe_config(None);
    assert_eq!(get_poe_monitor_id(None, setting, hint), 0);
}

#[test]
fn end_to_end_override_short_circuits() {
    let setting = ConfigPolicy::Strict
        .settle(from_local_config(Some("[screenshot]\nscreen = 3\nshortcut = Win+S")))
        .unwrap();
    let hint = from_poe_config(Some("[DISPLAY]\nadapter_name=Foo(#1)\n"));
    assert_eq!(hint, Some(1));
    assert_eq!(get_poe_monitor_id(None, setting, hint), 3);
    assert_eq!(get_poe_monitor_id(Some(2), setting, hint), 2);
}

#[test]
fn end_to_end_hint_is_used() {
    let setting = from_local_config(Some("[screenshot]\nscreen = -1\n")).unwrap();
    let hint = from_poe_config(Some("[DISPLAY]\nadapter_name=Foo(#0)(#2)\n"));
    assert_eq!(get_poe_monitor_id(None, setting, hint), 2);
}

#[test]
fn end_to_end_non_numeric_hint_falls_through() {
    let setting = from_local_config(Some("[screenshot]\nscreen = -1\n")).unwrap();
    let hint = from_poe_config(Some("[DISPLAY]\nadapter_name=Foo(#x)\n"));
    assert_eq!(hint, None);
    assert_eq!(get_poe_monitor_id(None, setting, hint), 0);
}

#[test]
fn end_to_end_malformed_override_under_lenient_policy() {
    let read = from_local_config(Some("[screenshot]\nscreen = primary\n"));
    assert!(ConfigPolicy::Strict.settle(read).is_err());
    let setting = ConfigPolicy::Lenient.settle(read).unwrap();
    let hint = from_poe_config(Some("[DISPLAY]\nadapter_name=Foo(#1)\n"));
    assert_eq!(get_poe_monitor_id(None, setting, hint), 1);
}

#[test]
fn screen_within_range() {
    assert_eq!(poe_screen(0, 1), Ok(0));
    assert_eq!(poe_screen(2, 3), Ok(2));
}

#[test]
fn screen_out_of_range() {
    assert_eq!(poe_screen(3, 3), Err(Error::InvalidScreenId { id: 3, total: 3 }));
    assert_eq!(poe_screen(7, 2), Err(Error::InvalidScreenId { id: 7, total: 2 }));
    assert_eq!(poe_screen(0, 0), Err(Error::InvalidScreenId { id: 0, total: 0 }));
}

#[test]
fn message_names_the_range() {
    let e = Error::InvalidScreenId { id: 3, total: 2 };
    assert_eq!(
        e.message(),
        "Error: Cannot use screen 3, you only have 2 screen(s) (IDs go from 0 to 1)"
    );
    let e = Error::InvalidScreenId { id: 1, total: 1 };
    assert_eq!(
        e.message(),
        "Error: Cannot use screen 1, you only have 1 screen(s) (IDs go from 0 to 0)"
    );
    let e = Error::InvalidScreenId { id: 4294967295, total: 12 };
    assert_eq!(
        e.message(),
        format!(
            "Error: Cannot use screen {}, you only have {} screen(s) (IDs go from 0 to {})",
            4294967295usize, 12, 11
        )
    );
}

#[test]
fn message_without_any_screen() {
    let e = poe_screen(0, 0).unwrap_err();
    assert_eq!(e.message(), "Error: Cannot use screen 0, you only have 0 screen(s)");
    let e = Error::InvalidScreenId { id: 5, total: 0 };
    assert_eq!(e.message(), "Error: Cannot use screen 5, you only have 0 screen(s)");
}
