use irrigate::client::{Error as ClientError, MeasurementDTO, WaterRequestDTO};
use irrigate::convert::{is_num_var, num_var, parse_decimal, Bus, IntoEnum, Mode, SlaveSelect};
use irrigate::dto::PaginationDto;
use irrigate::entity::DbFailure;
use irrigate::error::{commit_outcome, db_outcome, ErrorResponse};
use irrigate::gpio::Led;
use irrigate::hardware::{Hardware, HardwareSettings, SettingError};
use irrigate::mqtt::Delegate;
use irrigate::query::{contains_pattern, search_plants, search_profiles};
use irrigate::reading::{le, lt};

#[test]
fn pagination_defaults_to_ten() {
    let p = PaginationDto::new_limited(3, None).unwrap();
    assert_eq!(p, PaginationDto { page: 3, page_size: 10 });
    assert_eq!(p.offset(), 30);
}

#[test]
fn pagination_accepts_thirty() {
    let p = PaginationDto::new_limited(0, Some(30)).unwrap();
    assert_eq!(p.page_size, 30);
    assert_eq!(p.offset(), 0);
}

#[test]
fn pagination_refuses_more_than_thirty() {
    let e = PaginationDto::new_limited(1, Some(31)).unwrap_err();
    assert_eq!(e, ErrorResponse::BadRequest("page size too big".to_string()));
}

#[test]
fn pagination_offset_of_negative_page() {
    let p = PaginationDto::new_limited(-2, Some(7)).unwrap();
    assert_eq!(p.offset(), -14);
}

fn float_samples() -> Vec<f32> {
    vec![
        0.0, -0.0, 1.0, -1.0, 0.5, 40.0, 40.000004, -40.0, 1e-45, -1e-45, f32::MIN_POSITIVE,
        f32::MAX, f32::MIN, f32::INFINITY, f32::NEG_INFINITY, f32::NAN, -f32::NAN, 123.25, -0.75,
    ]
}

#[test]
fn reading_order_agrees_with_f32() {
    for a in float_samples() {
        for b in float_samples() {
            assert_eq!(lt(a.to_bits(), b.to_bits()), a < b, "{a} < {b}");
            assert_eq!(le(a.to_bits(), b.to_bits()), a <= b, "{a} <= {b}");
        }
    }
}

#[test]
fn reading_nan_is_incomparable() {
    let nan = f32::NAN.to_bits();
    assert!(!lt(nan, nan));
    assert!(!le(nan, nan));
    assert!(!le(nan, 1.0f32.to_bits()));
    assert!(!le(1.0f32.to_bits(), nan));
}

#[test]
fn reading_zero_signs_are_equal() {
    assert!(le(0.0f32.to_bits(), (-0.0f32).to_bits()));
    assert!(le((-0.0f32).to_bits(), 0.0f32.to_bits()));
    assert!(!lt((-0.0f32).to_bits(), 0.0f32.to_bits()));
}

#[test]
fn db_outcome_maps_failure_to_internal() {
    assert_eq!(db_outcome::<i32>(Ok(4)), Ok(4));
    assert_eq!(db_outcome::<i32>(Err(DbFailure)), Err(ErrorResponse::InternalServerError(())));
}

#[test]
fn commit_outcome_returns_value_or_internal() {
    assert_eq!(commit_outcome(Ok(()), 9u8), Ok(9u8));
    assert_eq!(commit_outcome(Err(DbFailure), 9u8), Err(ErrorResponse::InternalServerError(())));
}

#[test]
fn led_pins() {
    assert_eq!(Led::Red.pin(), 17);
    assert_eq!(Led::Green.pin(), 18);
}

#[test]
fn parse_decimal_accepts_what_std_accepts() {
    let samples = [
        "0", "42", "+7", "", "+", "-1", "-0", " 1", "1 ", "1a", "007", "++1", "18446744073709551615",
        "18446744073709551616", "99999999999999999999999", "+18446744073709551615", "٣",
    ];
    for s in samples {
        assert_eq!(parse_decimal(s), s.parse::<u64>().ok(), "{s:?}");
    }
}

#[test]
fn num_var_narrows_to_the_type() {
    assert!(is_num_var::<u8>("255"));
    assert_eq!(num_var::<u8>("255"), 255u8);
    assert!(!is_num_var::<u8>("256"));
    assert!(is_num_var::<u32>("4294967295"));
    assert_eq!(num_var::<u32>("4294967295"), u32::MAX);
    assert!(!is_num_var::<u32>("4294967296"));
    assert!(is_num_var::<u16>("1883"));
    assert_eq!(num_var::<u16>("1883"), 1883u16);
    assert!(!is_num_var::<u16>("x"));
}

#[test]
fn num_var_of_pin_settings() {
    assert!(is_num_var::<u8>("17"));
    assert_eq!(num_var::<u8>("17"), 17u8);
    assert!(!is_num_var::<u8>("300"));
}

#[test]
fn casts_name_their_number() {
    assert_eq!(<u64 as IntoEnum<Bus>>::cast(0), Bus::Spi0);
    assert_eq!(<u64 as IntoEnum<Bus>>::cast(6), Bus::Spi6);
    assert_eq!(<u64 as IntoEnum<SlaveSelect>>::cast(9), SlaveSelect::Ss9);
    assert_eq!(<u64 as IntoEnum<SlaveSelect>>::cast(15), SlaveSelect::Ss15);
    assert_eq!(<u64 as IntoEnum<Mode>>::cast(2), Mode::Mode2);
    assert_eq!(<u64 as IntoEnum<Mode>>::cast(3), Mode::Mode3);
}

fn settings(values: [&str; 7]) -> HardwareSettings {
    HardwareSettings {
        spi_bus: values[0].to_string(),
        spi_slave_select: values[1].to_string(),
        spi_clock: values[2].to_string(),
        spi_mode: values[3].to_string(),
        dht11: values[4].to_string(),
        calibration: values[5].to_string(),
        solenoid: values[6].to_string(),
    }
}

#[test]
fn hardware_from_valid_settings() {
    let s = settings(["0", "1", "1000000", "0", "4", "1023", "27"]);
    assert_eq!(Hardware::check(&s), Ok(()));
    let h = Hardware::new(&s);
    assert_eq!(h.moisture_sensor.bus, Bus::Spi0);
    assert_eq!(h.moisture_sensor.slave_select, SlaveSelect::Ss1);
    assert_eq!(h.moisture_sensor.clock_freq, 1_000_000);
    assert_eq!(h.moisture_sensor.mode, Mode::Mode0);
    assert_eq!(h.dht11_pin, 4);
    assert_eq!(h.moisture_sensor_calibration, 1023);
    assert_eq!(h.solenoid_valve_pin, 27);
}

#[test]
fn hardware_reports_first_bad_setting() {
    assert_eq!(
        Hardware::check(&settings(["x", "1", "1", "0", "4", "1", "27"])),
        Err(SettingError::Invalid("MS_SPI_BUS"))
    );
    assert_eq!(Hardware::check(&settings(["7", "x", "1", "0", "4", "1", "27"])), Err(SettingError::OutOfRange(7)));
    assert_eq!(
        Hardware::check(&settings(["1", "", "1", "0", "4", "1", "27"])),
        Err(SettingError::Invalid("MS_SPI_SS"))
    );
    assert_eq!(Hardware::check(&settings(["1", "16", "1", "0", "4", "1", "27"])), Err(SettingError::OutOfRange(16)));
    assert_eq!(
        Hardware::check(&settings(["1", "2", "4294967296", "0", "4", "1", "27"])),
        Err(SettingError::Invalid("MS_SPI_CLK"))
    );
    assert_eq!(
        Hardware::check(&settings(["1", "2", "3", "-1", "4", "1", "27"])),
        Err(SettingError::Invalid("MS_SPI_MODE"))
    );
    assert_eq!(Hardware::check(&settings(["1", "2", "3", "4", "4", "1", "27"])), Err(SettingError::OutOfRange(4)));
    assert_eq!(
        Hardware::check(&settings(["1", "2", "3", "3", "256", "1", "27"])),
        Err(SettingError::Invalid("DHT11"))
    );
    assert_eq!(
        Hardware::check(&settings(["1", "2", "3", "3", "4", "1.5", "27"])),
        Err(SettingError::Invalid("SEN_CALIBRATION_MAX"))
    );
    assert_eq!(
        Hardware::check(&settings(["1", "2", "3", "3", "4", "1", "300"])),
        Err(SettingError::Invalid("SOLENOID"))
    );
}

#[test]
fn like_pattern_wraps_query() {
    assert_eq!(contains_pattern("rose"), "%rose%");
    assert_eq!(contains_pattern(""), "%%");
}

#[test]
fn plant_search_without_query() {
    let p = PaginationDto::new_limited(2, Some(5)).unwrap();
    let q = search_plants(None, 8, &p);
    assert_eq!(q.sql, "SELECT * FROM plant WHERE belongs_to_user_id = $3  LIMIT $1 OFFSET $2");
    assert_eq!((q.limit, q.offset, q.owner, q.pattern), (5, 10, Some(8), None));
}

#[test]
fn plant_search_with_query() {
    let p = PaginationDto::new_limited(0, None).unwrap();
    let q = search_plants(Some("fern"), 3, &p);
    assert_eq!(
        q.sql,
        "SELECT * FROM plant WHERE belongs_to_user_id = $3 AND \"name\" like $3 LIMIT $1 OFFSET $2"
    );
    assert_eq!((q.limit, q.offset, q.owner), (10, 0, Some(3)));
    assert_eq!(q.pattern.as_deref(), Some("%fern%"));
}

#[test]
fn profile_search_texts() {
    let p = PaginationDto::new_limited(1, Some(30)).unwrap();
    let q = search_profiles(None, &p);
    assert_eq!(q.sql, "SELECT * FROM plant_profile  LIMIT $1 OFFSET $2");
    assert_eq!((q.limit, q.offset, q.owner, q.pattern), (30, 30, None, None));
    let q = search_profiles(Some("cact"), &p);
    assert_eq!(q.sql, "SELECT * FROM plant_profile AND \"name\" like $3 LIMIT $1 OFFSET $2");
    assert_eq!(q.pattern.as_deref(), Some("%cact%"));
}

#[test]
fn valve_follows_requests_for_this_client() {
    let own = "plant-1".to_string();
    let open = WaterRequestDTO { uuid: "plant-1".to_string(), set_active: true };
    let close = WaterRequestDTO { uuid: "plant-1".to_string(), set_active: false };
    let other = WaterRequestDTO { uuid: "plant-2".to_string(), set_active: true };
    assert_eq!(open.valve_setting(&own), Some(true));
    assert_eq!(close.valve_setting(&own), Some(false));
    assert_eq!(other.valve_setting(&own), None);
}

#[test]
fn water_request_default() {
    let d = WaterRequestDTO::default();
    assert_eq!(d.uuid, "");
    assert!(!d.set_active);
}

#[test]
fn delegate_round_trip() {
    let d = Delegate::new(MeasurementDTO::Error(ClientError::HardwareError));
    assert_eq!(*d, MeasurementDTO::Error(ClientError::HardwareError));
    assert_eq!(d.into_owned(), MeasurementDTO::Error(ClientError::HardwareError));
}

#[test]
fn connection_from_well_formed_urls() {
    let c = irrigate::client::Connection::from_settings("http://plants.local:8000/api", "mqtt://broker.local:1884").unwrap();
    assert_eq!(c.http_server.host.as_deref(), Some("plants.local"));
    assert_eq!(c.http_server.port, Some(8000));
    assert_eq!(c.mqtt_server.host.as_deref(), Some("broker.local"));
    assert_eq!(c.mqtt_server.port, Some(1884));
    assert_eq!(irrigate::client::mqtt_endpoint(&c.mqtt_server), Some(("broker.local".to_string(), 1884)));
}

#[test]
fn connection_reports_first_malformed_url() {
    assert_eq!(irrigate::client::Connection::from_settings("not a url", "also not").err(), Some(irrigate::client::ConnectionError::MalformedHttpServer));
    assert_eq!(irrigate::client::Connection::from_settings("http://a", "::").err(), Some(irrigate::client::ConnectionError::MalformedMqttServer));
}

#[test]
fn mqtt_endpoint_defaults_port_and_needs_host() {
    let c = irrigate::client::Connection::from_settings("http://a", "mqtt://broker.local").unwrap();
    assert_eq!(c.mqtt_server.port, None);
    assert_eq!(irrigate::client::mqtt_endpoint(&c.mqtt_server), Some(("broker.local".to_string(), 1883)));
    let c = irrigate::client::Connection::from_settings("http://a", "unix:/run/broker").unwrap();
    assert_eq!(c.mqtt_server.host, None);
    assert_eq!(irrigate::client::mqtt_endpoint(&c.mqtt_server), None);
}
