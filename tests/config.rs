use wreq::config::{
    Http2Config, Priorities, Priority, PseudoId, PseudoOrder, SettingId, SettingsOrder,
    StreamDependency, StreamId,
};

fn settings_order() -> SettingsOrder {
    SettingsOrder::builder()
        .push(SettingId::HeaderTableSize)
        .push(SettingId::EnablePush)
        .push(SettingId::InitialWindowSize)
        .build()
}

fn pseudo_order() -> PseudoOrder {
    PseudoOrder::builder()
        .push(PseudoId::Method)
        .push(PseudoId::Authority)
        .push(PseudoId::Scheme)
        .push(PseudoId::Path)
        .build()
}

fn dependency() -> StreamDependency {
    StreamDependency::new(StreamId::from(0), 255, true)
}

fn priorities() -> Priorities {
    Priorities::builder()
        .push(Priority::new(StreamId::from(3), StreamDependency::new(StreamId::from(0), 200, false)))
        .build()
}

#[test]
fn builder_starts_unset() {
    let c = Http2Config::builder().build();
    assert_eq!(c.initial_stream_id, None);
    assert_eq!(c.initial_connection_window_size, None);
    assert_eq!(c.header_table_size, None);
    assert_eq!(c.enable_push, None);
    assert_eq!(c.max_concurrent_streams, None);
    assert_eq!(c.initial_stream_window_size, None);
    assert_eq!(c.max_frame_size, None);
    assert_eq!(c.max_header_list_size, None);
    assert_eq!(c.unknown_setting8, None);
    assert_eq!(c.unknown_setting9, None);
    assert_eq!(c.enable_connect_protocol, None);
    assert_eq!(c.no_rfc7540_priorities, None);
    assert!(c.settings_order.is_none());
    assert!(c.headers_stream_dependency.is_none());
    assert!(c.headers_pseudo_order.is_none());
    assert!(c.experimental_settings.is_none());
    assert!(c.priorities.is_none());
}

#[test]
fn stream_window_set_and_frame_size_left_unset() {
    let c = Http2Config::builder()
        .initial_stream_window_size(Some(65535))
        .max_frame_size(None)
        .build();
    assert_eq!(c.initial_stream_window_size, Some(65535));
    assert_eq!(c.max_frame_size, None);
}

#[test]
fn absent_values_do_not_clobber() {
    let base = Http2Config::builder()
        .initial_stream_id(Some(3))
        .initial_connection_window_size(Some(15663105))
        .header_table_size(Some(65536))
        .max_concurrent_streams(Some(1000))
        .initial_stream_window_size(Some(6291456))
        .max_frame_size(Some(16384))
        .settings_order(Some(settings_order()))
        .headers_stream_dependency(Some(dependency()))
        .headers_pseudo_order(Some(pseudo_order()))
        .priorities(Some(priorities()));
    let expected = format!("{:?}", base.clone().build());
    let c = base
        .initial_stream_id(None)
        .initial_connection_window_size(None)
        .header_table_size(None)
        .max_concurrent_streams(None)
        .initial_stream_window_size(None)
        .initial_window_size(None)
        .max_frame_size(None)
        .settings_order(None)
        .headers_priority(None)
        .headers_stream_dependency(None)
        .headers_pseudo_order(None)
        .experimental_settings(None)
        .priority(None)
        .priorities(None)
        .build();
    assert_eq!(format!("{:?}", c), expected);
    assert_eq!(c.initial_stream_id, Some(3));
    assert_eq!(c.max_frame_size, Some(16384));
    assert_eq!(c.settings_order, Some(settings_order()));
    assert_eq!(c.headers_pseudo_order, Some(pseudo_order()));
}

#[test]
fn present_values_overwrite() {
    let c = Http2Config::builder()
        .header_table_size(Some(4096))
        .header_table_size(Some(65536))
        .initial_window_size(Some(1))
        .headers_priority(Some(StreamDependency::new(StreamId::from(1), 1, false)))
        .headers_stream_dependency(Some(dependency()))
        .priority(Some(priorities()))
        .build();
    assert_eq!(c.header_table_size, Some(65536));
    assert_eq!(c.initial_stream_window_size, Some(1));
    assert_eq!(c.headers_stream_dependency, Some(dependency()));
    assert_eq!(c.priorities, Some(priorities()));
}

#[test]
fn unconditional_setters_last_call_wins() {
    let c = Http2Config::builder()
        .enable_push(true)
        .enable_push(false)
        .max_header_list_size(1)
        .max_header_list_size(262144)
        .unknown_setting8(false)
        .unknown_setting8(true)
        .unknown_setting9(true)
        .enable_connect_protocol(true)
        .no_rfc7540_priorities(false)
        .build();
    assert_eq!(c.enable_push, Some(false));
    assert_eq!(c.max_header_list_size, Some(262144));
    assert_eq!(c.unknown_setting8, Some(true));
    assert_eq!(c.unknown_setting9, Some(true));
    assert_eq!(c.enable_connect_protocol, Some(true));
    assert_eq!(c.no_rfc7540_priorities, Some(false));
    assert_eq!(c.initial_stream_id, None);
}

#[test]
fn builders_are_independent() {
    let base = Http2Config::builder().max_frame_size(Some(16384));
    let a = base.clone().max_frame_size(Some(32768)).build();
    let b = base.build();
    assert_eq!(a.max_frame_size, Some(32768));
    assert_eq!(b.max_frame_size, Some(16384));
}
