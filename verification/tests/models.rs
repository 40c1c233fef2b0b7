use nautilus_oanda::http::models::{
    OandaDayOfWeek, OandaFinancingDayOfWeek, OandaGuaranteedStopLossOrderLevelRestriction,
    OandaGuaranteedStopLossOrderModeForInstrument, OandaInstrument, OandaInstrumentFinancing,
    OandaInstrumentName, OandaInstrumentType, OandaTag,
};
use rust_decimal::Decimal;

#[test]
fn instrument_name_codes() {
    assert_eq!(OandaInstrumentName::AudNzd.code(), "AUD_NZD");
    assert_eq!(OandaInstrumentName::Au200Aud.code(), "AU200_AUD");
    assert_eq!(OandaInstrumentName::De10YbEur.code(), "DE10YB_EUR");
    assert_eq!(OandaInstrumentName::Ch20Chf.code(), "CH20_CHF");
    assert_eq!(OandaInstrumentName::ChinahHkd.code(), "CHINAH_HKD");
    assert_eq!(OandaInstrumentName::ZarJpy.code(), "ZAR_JPY");
    assert_eq!(
        OandaInstrumentName::from_code("AUD_NZD"),
        Some(OandaInstrumentName::AudNzd)
    );
    assert_eq!(
        OandaInstrumentName::from_code("USB10Y_USD"),
        Some(OandaInstrumentName::Usb10YUsd)
    );
    assert_eq!(OandaInstrumentName::from_code("AUDNZD"), None);
    assert_eq!(OandaInstrumentName::from_code("aud_nzd"), None);
    assert_eq!(OandaInstrumentName::from_code(""), None);
}

#[test]
fn instrument_name_codes_round_trip() {
    let mut seen = std::collections::HashSet::new();
    for index in 0..OandaInstrumentName::COUNT {
        let name = OandaInstrumentName::at(index).expect("every position holds a name");
        assert_eq!(OandaInstrumentName::from_code(name.code()), Some(name));
        assert!(seen.insert(name.code()), "codes are distinct");
    }
    assert_eq!(seen.len(), 123);
    assert_eq!(OandaInstrumentName::at(OandaInstrumentName::COUNT), None);
}

#[test]
fn small_enum_codes() {
    assert_eq!(OandaInstrumentType::Currency.code(), "CURRENCY");
    assert_eq!(OandaInstrumentType::from_code("CFD"), Some(OandaInstrumentType::Cfd));
    assert_eq!(OandaInstrumentType::from_code("METAL"), Some(OandaInstrumentType::Metal));
    assert_eq!(OandaInstrumentType::from_code("Currency"), None);
    assert_eq!(
        OandaGuaranteedStopLossOrderModeForInstrument::from_code("ALLOWED"),
        Some(OandaGuaranteedStopLossOrderModeForInstrument::Allowed)
    );
    assert_eq!(
        OandaGuaranteedStopLossOrderModeForInstrument::Required.code(),
        "REQUIRED"
    );
    assert_eq!(OandaDayOfWeek::from_code("MONDAY"), Some(OandaDayOfWeek::Monday));
    assert_eq!(OandaDayOfWeek::from_code("SATURDAY"), Some(OandaDayOfWeek::Saturday));
    assert_eq!(OandaDayOfWeek::Thursday.code(), "THURSDAY");
    assert_eq!(OandaDayOfWeek::from_code("FUNDAY"), None);
    for index in 0..OandaDayOfWeek::COUNT {
        let day = OandaDayOfWeek::at(index).unwrap();
        assert_eq!(OandaDayOfWeek::from_code(day.code()), Some(day));
    }
}

pub fn aud_nzd() -> OandaInstrument {
    OandaInstrument {
        name: OandaInstrumentName::AudNzd,
        instrument_type: OandaInstrumentType::Currency,
        display_name: "AUD/NZD".to_string(),
        pip_location: -4,
        display_precision: 5,
        trade_units_precision: 0,
        minimum_trade_size: Decimal::new(1, 0),
        maximum_trailing_stop_distance: Decimal::new(100000, 5),
        minimum_guaranteed_stop_loss_distance: Decimal::new(10, 4),
        minimum_trailing_stop_distance: Decimal::new(50, 5),
        maximum_position_size: Decimal::new(0, 0),
        maximum_order_units: Decimal::new(100000000, 0),
        margin_rate: Decimal::new(5, 2),
        commission: None,
        guaranteed_stop_loss_order_mode: OandaGuaranteedStopLossOrderModeForInstrument::Allowed,
        guaranteed_stop_loss_order_execution_premium: Decimal::new(1, 3),
        guaranteed_stop_loss_order_level_restriction:
            OandaGuaranteedStopLossOrderLevelRestriction {
                volume: Decimal::new(1000000, 0),
                price_range: Decimal::new(25, 4),
            },
        financing: OandaInstrumentFinancing {
            long_rate: Decimal::new(-47, 4),
            short_rate: Decimal::new(-173, 4),
            financing_days_of_week: vec![OandaFinancingDayOfWeek {
                day_of_week: OandaDayOfWeek::Monday,
                days_charged: 1,
            }],
        },
        tags: vec![OandaTag {
            tag_type: "ASSET_CLASS".to_string(),
            name: "CURRENCY".to_string(),
        }],
    }
}

#[test]
fn instrument_clone_keeps_every_field() {
    let original = aud_nzd();
    let copy = original.clone();
    assert_eq!(copy.name, OandaInstrumentName::AudNzd);
    assert_eq!(copy.instrument_type, OandaInstrumentType::Currency);
    assert_eq!(copy.display_name, "AUD/NZD");
    assert_eq!(copy.pip_location, -4);
    assert_eq!(copy.maximum_trailing_stop_distance, Decimal::new(100000, 5));
    assert_eq!(copy.margin_rate, Decimal::new(5, 2));
    assert_eq!(
        copy.guaranteed_stop_loss_order_level_restriction.price_range,
        Decimal::new(25, 4)
    );
    assert_eq!(copy.financing.long_rate, Decimal::new(-47, 4));
    assert_eq!(copy.financing.financing_days_of_week.len(), 1);
    assert_eq!(
        copy.financing.financing_days_of_week[0].day_of_week,
        OandaDayOfWeek::Monday
    );
    assert_eq!(copy.tags.len(), 1);
    assert_eq!(copy.tags[0].tag_type, "ASSET_CLASS");
    assert_eq!(copy.tags[0].name, "CURRENCY");
}
