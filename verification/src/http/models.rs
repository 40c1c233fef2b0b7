//! Data structures representing OANDA REST API payloads.
//!
//! Each enumeration travels on the wire as a code (`"AUD_NZD"`, `"CURRENCY"`,
//! ...); `code` and `from_code` convert between a value and its code, and the
//! lemmas below show that the two are inverse to each other.

use rust_decimal::Decimal;
use vstd::prelude::*;

verus! {

/// Decimal numbers of the payloads (rates, sizes, distances) are carried
/// through as `rust_decimal::Decimal` values.
#[verifier::external_type_specification]
#[verifier::external_body]
pub struct ExDecimal(Decimal);

/// Returns whether two strings hold the same characters.
pub fn str_equals(a: &str, b: &str) -> (equal: bool)
    ensures
        equal == (a@ == b@),
{
    a.to_owned() == b.to_owned()
}


/// Instrument name identifier. Used by clients to refer to an Instrument.
#[derive(Clone, Copy, Debug, PartialEq, Eq, Structural, PartialOrd, Ord, Hash)]
pub enum OandaInstrumentName {
    /// Wire code `AU200_AUD`.
    Au200Aud,
    /// Wire code `AUD_CAD`.
    AudCad,
    /// Wire code `AUD_CHF`.
    AudChf,
    /// Wire code `AUD_HKD`.
    AudHkd,
    /// Wire code `AUD_JPY`.
    AudJpy,
    /// Wire code `AUD_NZD`.
    AudNzd,
    /// Wire code `AUD_SGD`.
    AudSgd,
    /// Wire code `AUD_USD`.
    AudUsd,
    /// Wire code `BCO_USD`.
    BcoUsd,
    /// Wire code `CAD_CHF`.
    CadChf,
    /// Wire code `CAD_HKD`.
    CadHkd,
    /// Wire code `CAD_JPY`.
    CadJpy,
    /// Wire code `CAD_SGD`.
    CadSgd,
    /// Wire code `CH20_CHF`.
    Ch20Chf,
    /// Wire code `CHF_HKD`.
    ChfHkd,
    /// Wire code `CHF_JPY`.
    ChfJpy,
    /// Wire code `CHF_ZAR`.
    ChfZar,
    /// Wire code `CHINAH_HKD`.
    ChinahHkd,
    /// Wire code `CN50_USD`.
    Cn50Usd,
    /// Wire code `CORN_USD`.
    CornUsd,
    /// Wire code `DE10YB_EUR`.
    De10YbEur,
    /// Wire code `DE30_EUR`.
    De30Eur,
    /// Wire code `ESPIX_EUR`.
    EspixEur,
    /// Wire code `EU50_EUR`.
    Eu50Eur,
    /// Wire code `EUR_AUD`.
    EurAud,
    /// Wire code `EUR_CAD`.
    EurCad,
    /// Wire code `EUR_CHF`.
    EurChf,
    /// Wire code `EUR_CZK`.
    EurCzk,
    /// Wire code `EUR_DKK`.
    EurDkk,
    /// Wire code `EUR_GBP`.
    EurGbp,
    /// Wire code `EUR_HKD`.
    EurHkd,
    /// Wire code `EUR_HUF`.
    EurHuf,
    /// Wire code `EUR_JPY`.
    EurJpy,
    /// Wire code `EUR_NOK`.
    EurNok,
    /// Wire code `EUR_NZD`.
    EurNzd,
    /// Wire code `EUR_PLN`.
    EurPln,
    /// Wire code `EUR_SEK`.
    EurSek,
    /// Wire code `EUR_SGD`.
    EurSgd,
    /// Wire code `EUR_TRY`.
    EurTry,
    /// Wire code `EUR_USD`.
    EurUsd,
    /// Wire code `EUR_ZAR`.
    EurZar,
    /// Wire code `FR40_EUR`.
    Fr40Eur,
    /// Wire code `GBP_AUD`.
    GbpAud,
    /// Wire code `GBP_CAD`.
    GbpCad,
    /// Wire code `GBP_CHF`.
    GbpChf,
    /// Wire code `GBP_HKD`.
    GbpHkd,
    /// Wire code `GBP_JPY`.
    GbpJpy,
    /// Wire code `GBP_NZD`.
    GbpNzd,
    /// Wire code `GBP_PLN`.
    GbpPln,
    /// Wire code `GBP_SGD`.
    GbpSgd,
    /// Wire code `GBP_USD`.
    GbpUsd,
    /// Wire code `GBP_ZAR`.
    GbpZar,
    /// Wire code `HK33_HKD`.
    Hk33Hkd,
    /// Wire code `HKD_JPY`.
    HkdJpy,
    /// Wire code `JP225_USD`.
    Jp225Usd,
    /// Wire code `JP225Y_JPY`.
    Jp225YJpy,
    /// Wire code `NAS100_USD`.
    Nas100Usd,
    /// Wire code `NATGAS_USD`.
    NatgasUsd,
    /// Wire code `NL25_EUR`.
    Nl25Eur,
    /// Wire code `NZD_CAD`.
    NzdCad,
    /// Wire code `NZD_CHF`.
    NzdChf,
    /// Wire code `NZD_HKD`.
    NzdHkd,
    /// Wire code `NZD_JPY`.
    NzdJpy,
    /// Wire code `NZD_SGD`.
    NzdSgd,
    /// Wire code `NZD_USD`.
    NzdUsd,
    /// Wire code `SG30_SGD`.
    Sg30Sgd,
    /// Wire code `SGD_CHF`.
    SgdChf,
    /// Wire code `SGD_JPY`.
    SgdJpy,
    /// Wire code `SOYBN_USD`.
    SoybnUsd,
    /// Wire code `SPX500_USD`.
    Spx500Usd,
    /// Wire code `SUGAR_USD`.
    SugarUsd,
    /// Wire code `TRY_JPY`.
    TryJpy,
    /// Wire code `UK100_GBP`.
    Uk100Gbp,
    /// Wire code `UK10YB_GBP`.
    Uk10YbGbp,
    /// Wire code `US2000_USD`.
    Us2000Usd,
    /// Wire code `US30_USD`.
    Us30Usd,
    /// Wire code `USB02Y_USD`.
    Usb02YUsd,
    /// Wire code `USB05Y_USD`.
    Usb05YUsd,
    /// Wire code `USB10Y_USD`.
    Usb10YUsd,
    /// Wire code `USB30Y_USD`.
    Usb30YUsd,
    /// Wire code `USD_CAD`.
    UsdCad,
    /// Wire code `USD_CHF`.
    UsdChf,
    /// Wire code `USD_CNH`.
    UsdCnh,
    /// Wire code `USD_CZK`.
    UsdCzk,
    /// Wire code `USD_DKK`.
    UsdDkk,
    /// Wire code `USD_HKD`.
    UsdHkd,
    /// Wire code `USD_HUF`.
    UsdHuf,
    /// Wire code `USD_JPY`.
    UsdJpy,
    /// Wire code `USD_MXN`.
    UsdMxn,
    /// Wire code `USD_NOK`.
    UsdNok,
    /// Wire code `USD_PLN`.
    UsdPln,
    /// Wire code `USD_SEK`.
    UsdSek,
    /// Wire code `USD_SGD`.
    UsdSgd,
    /// Wire code `USD_THB`.
    UsdThb,
    /// Wire code `USD_TRY`.
    UsdTry,
    /// Wire code `USD_ZAR`.
    UsdZar,
    /// Wire code `WHEAT_USD`.
    WheatUsd,
    /// Wire code `WTICO_USD`.
    WticoUsd,
    /// Wire code `XAG_AUD`.
    XagAud,
    /// Wire code `XAG_CAD`.
    XagCad,
    /// Wire code `XAG_CHF`.
    XagChf,
    /// Wire code `XAG_EUR`.
    XagEur,
    /// Wire code `XAG_GBP`.
    XagGbp,
    /// Wire code `XAG_HKD`.
    XagHkd,
    /// Wire code `XAG_JPY`.
    XagJpy,
    /// Wire code `XAG_NZD`.
    XagNzd,
    /// Wire code `XAG_SGD`.
    XagSgd,
    /// Wire code `XAG_USD`.
    XagUsd,
    /// Wire code `XAU_AUD`.
    XauAud,
    /// Wire code `XAU_CAD`.
    XauCad,
    /// Wire code `XAU_CHF`.
    XauChf,
    /// Wire code `XAU_EUR`.
    XauEur,
    /// Wire code `XAU_GBP`.
    XauGbp,
    /// Wire code `XAU_HKD`.
    XauHkd,
    /// Wire code `XAU_JPY`.
    XauJpy,
    /// Wire code `XAU_NZD`.
    XauNzd,
    /// Wire code `XAU_SGD`.
    XauSgd,
    /// Wire code `XAU_USD`.
    XauUsd,
    /// Wire code `XAU_XAG`.
    XauXag,
    /// Wire code `XCU_USD`.
    XcuUsd,
    /// Wire code `XPD_USD`.
    XpdUsd,
    /// Wire code `XPT_USD`.
    XptUsd,
    /// Wire code `ZAR_JPY`.
    ZarJpy,
}

impl OandaInstrumentName {
    /// The number of variants.
    pub const COUNT: usize = 123;

    /// The wire code of this instrument name, as characters.
    pub open spec fn spec_code(self) -> Seq<char> {
        match self {
            OandaInstrumentName::Au200Aud => seq!['A', 'U', '2', '0', '0', '_', 'A', 'U', 'D'],
            OandaInstrumentName::AudCad => seq!['A', 'U', 'D', '_', 'C', 'A', 'D'],
            OandaInstrumentName::AudChf => seq!['A', 'U', 'D', '_', 'C', 'H', 'F'],
            OandaInstrumentName::AudHkd => seq!['A', 'U', 'D', '_', 'H', 'K', 'D'],
            OandaInstrumentName::AudJpy => seq!['A', 'U', 'D', '_', 'J', 'P', 'Y'],
            OandaInstrumentName::AudNzd => seq!['A', 'U', 'D', '_', 'N', 'Z', 'D'],
            OandaInstrumentName::AudSgd => seq!['A', 'U', 'D', '_', 'S', 'G', 'D'],
            OandaInstrumentName::AudUsd => seq!['A', 'U', 'D', '_', 'U', 'S', 'D'],
            OandaInstrumentName::BcoUsd => seq!['B', 'C', 'O', '_', 'U', 'S', 'D'],
            OandaInstrumentName::CadChf => seq!['C', 'A', 'D', '_', 'C', 'H', 'F'],
            OandaInstrumentName::CadHkd => seq!['C', 'A', 'D', '_', 'H', 'K', 'D'],
            OandaInstrumentName::CadJpy => seq!['C', 'A', 'D', '_', 'J', 'P', 'Y'],
            OandaInstrumentName::CadSgd => seq!['C', 'A', 'D', '_', 'S', 'G', 'D'],
            OandaInstrumentName::Ch20Chf => seq!['C', 'H', '2', '0', '_', 'C', 'H', 'F'],
            OandaInstrumentName::ChfHkd => seq!['C', 'H', 'F', '_', 'H', 'K', 'D'],
            OandaInstrumentName::ChfJpy => seq!['C', 'H', 'F', '_', 'J', 'P', 'Y'],
            OandaInstrumentName::ChfZar => seq!['C', 'H', 'F', '_', 'Z', 'A', 'R'],
            OandaInstrumentName::ChinahHkd => seq!['C', 'H', 'I', 'N', 'A', 'H', '_', 'H', 'K', 'D'],
            OandaInstrumentName::Cn50Usd => seq!['C', 'N', '5', '0', '_', 'U', 'S', 'D'],
            OandaInstrumentName::CornUsd => seq!['C', 'O', 'R', 'N', '_', 'U', 'S', 'D'],
            OandaInstrumentName::De10YbEur => seq!['D', 'E', '1', '0', 'Y', 'B', '_', 'E', 'U', 'R'],
            OandaInstrumentName::De30Eur => seq!['D', 'E', '3', '0', '_', 'E', 'U', 'R'],
            OandaInstrumentName::EspixEur => seq!['E', 'S', 'P', 'I', 'X', '_', 'E', 'U', 'R'],
            OandaInstrumentName::Eu50Eur => seq!['E', 'U', '5', '0', '_', 'E', 'U', 'R'],
            OandaInstrumentName::EurAud => seq!['E', 'U', 'R', '_', 'A', 'U', 'D'],
            OandaInstrumentName::EurCad => seq!['E', 'U', 'R', '_', 'C', 'A', 'D'],
            OandaInstrumentName::EurChf => seq!['E', 'U', 'R', '_', 'C', 'H', 'F'],
            OandaInstrumentName::EurCzk => seq!['E', 'U', 'R', '_', 'C', 'Z', 'K'],
            OandaInstrumentName::EurDkk => seq!['E', 'U', 'R', '_', 'D', 'K', 'K'],
            OandaInstrumentName::EurGbp => seq!['E', 'U', 'R', '_', 'G', 'B', 'P'],
            OandaInstrumentName::EurHkd => seq!['E', 'U', 'R', '_', 'H', 'K', 'D'],
            OandaInstrumentName::EurHuf => seq!['E', 'U', 'R', '_', 'H', 'U', 'F'],
            OandaInstrumentName::EurJpy => seq!['E', 'U', 'R', '_', 'J', 'P', 'Y'],
            OandaInstrumentName::EurNok => seq!['E', 'U', 'R', '_', 'N', 'O', 'K'],
            OandaInstrumentName::EurNzd => seq!['E', 'U', 'R', '_', 'N', 'Z', 'D'],
            OandaInstrumentName::EurPln => seq!['E', 'U', 'R', '_', 'P', 'L', 'N'],
            OandaInstrumentName::EurSek => seq!['E', 'U', 'R', '_', 'S', 'E', 'K'],
            OandaInstrumentName::EurSgd => seq!['E', 'U', 'R', '_', 'S', 'G', 'D'],
            OandaInstrumentName::EurTry => seq!['E', 'U', 'R', '_', 'T', 'R', 'Y'],
            OandaInstrumentName::EurUsd => seq!['E', 'U', 'R', '_', 'U', 'S', 'D'],
            OandaInstrumentName::EurZar => seq!['E', 'U', 'R', '_', 'Z', 'A', 'R'],
            OandaInstrumentName::Fr40Eur => seq!['F', 'R', '4', '0', '_', 'E', 'U', 'R'],
            OandaInstrumentName::GbpAud => seq!['G', 'B', 'P', '_', 'A', 'U', 'D'],
            OandaInstrumentName::GbpCad => seq!['G', 'B', 'P', '_', 'C', 'A', 'D'],
            OandaInstrumentName::GbpChf => seq!['G', 'B', 'P', '_', 'C', 'H', 'F'],
            OandaInstrumentName::GbpHkd => seq!['G', 'B', 'P', '_', 'H', 'K', 'D'],
            OandaInstrumentName::GbpJpy => seq!['G', 'B', 'P', '_', 'J', 'P', 'Y'],
            OandaInstrumentName::GbpNzd => seq!['G', 'B', 'P', '_', 'N', 'Z', 'D'],
            OandaInstrumentName::GbpPln => seq!['G', 'B', 'P', '_', 'P', 'L', 'N'],
            OandaInstrumentName::GbpSgd => seq!['G', 'B', 'P', '_', 'S', 'G', 'D'],
            OandaInstrumentName::GbpUsd => seq!['G', 'B', 'P', '_', 'U', 'S', 'D'],
            OandaInstrumentName::GbpZar => seq!['G', 'B', 'P', '_', 'Z', 'A', 'R'],
            OandaInstrumentName::Hk33Hkd => seq!['H', 'K', '3', '3', '_', 'H', 'K', 'D'],
            OandaInstrumentName::HkdJpy => seq!['H', 'K', 'D', '_', 'J', 'P', 'Y'],
            OandaInstrumentName::Jp225Usd => seq!['J', 'P', '2', '2', '5', '_', 'U', 'S', 'D'],
            OandaInstrumentName::Jp225YJpy => seq!['J', 'P', '2', '2', '5', 'Y', '_', 'J', 'P', 'Y'],
            OandaInstrumentName::Nas100Usd => seq!['N', 'A', 'S', '1', '0', '0', '_', 'U', 'S', 'D'],
            OandaInstrumentName::NatgasUsd => seq!['N', 'A', 'T', 'G', 'A', 'S', '_', 'U', 'S', 'D'],
            OandaInstrumentName::Nl25Eur => seq!['N', 'L', '2', '5', '_', 'E', 'U', 'R'],
            OandaInstrumentName::NzdCad => seq!['N', 'Z', 'D', '_', 'C', 'A', 'D'],
            OandaInstrumentName::NzdChf => seq!['N', 'Z', 'D', '_', 'C', 'H', 'F'],
            OandaInstrumentName::NzdHkd => seq!['N', 'Z', 'D', '_', 'H', 'K', 'D'],
            OandaInstrumentName::NzdJpy => seq!['N', 'Z', 'D', '_', 'J', 'P', 'Y'],
            OandaInstrumentName::NzdSgd => seq!['N', 'Z', 'D', '_', 'S', 'G', 'D'],
            OandaInstrumentName::NzdUsd => seq!['N', 'Z', 'D', '_', 'U', 'S', 'D'],
            OandaInstrumentName::Sg30Sgd => seq!['S', 'G', '3', '0', '_', 'S', 'G', 'D'],
            OandaInstrumentName::SgdChf => seq!['S', 'G', 'D', '_', 'C', 'H', 'F'],
            OandaInstrumentName::SgdJpy => seq!['S', 'G', 'D', '_', 'J', 'P', 'Y'],
            OandaInstrumentName::SoybnUsd => seq!['S', 'O', 'Y', 'B', 'N', '_', 'U', 'S', 'D'],
            OandaInstrumentName::Spx500Usd => seq!['S', 'P', 'X', '5', '0', '0', '_', 'U', 'S', 'D'],
            OandaInstrumentName::SugarUsd => seq!['S', 'U', 'G', 'A', 'R', '_', 'U', 'S', 'D'],
            OandaInstrumentName::TryJpy => seq!['T', 'R', 'Y', '_', 'J', 'P', 'Y'],
            OandaInstrumentName::Uk100Gbp => seq!['U', 'K', '1', '0', '0', '_', 'G', 'B', 'P'],
            OandaInstrumentName::Uk10YbGbp => seq!['U', 'K', '1', '0', 'Y', 'B', '_', 'G', 'B', 'P'],
            OandaInstrumentName::Us2000Usd => seq!['U', 'S', '2', '0', '0', '0', '_', 'U', 'S', 'D'],
            OandaInstrumentName::Us30Usd => seq!['U', 'S', '3', '0', '_', 'U', 'S', 'D'],
            OandaInstrumentName::Usb02YUsd => seq!['U', 'S', 'B', '0', '2', 'Y', '_', 'U', 'S', 'D'],
            OandaInstrumentName::Usb05YUsd => seq!['U', 'S', 'B', '0', '5', 'Y', '_', 'U', 'S', 'D'],
            OandaInstrumentName::Usb10YUsd => seq!['U', 'S', 'B', '1', '0', 'Y', '_', 'U', 'S', 'D'],
            OandaInstrumentName::Usb30YUsd => seq!['U', 'S', 'B', '3', '0', 'Y', '_', 'U', 'S', 'D'],
            OandaInstrumentName::UsdCad => seq!['U', 'S', 'D', '_', 'C', 'A', 'D'],
            OandaInstrumentName::UsdChf => seq!['U', 'S', 'D', '_', 'C', 'H', 'F'],
            OandaInstrumentName::UsdCnh => seq!['U', 'S', 'D', '_', 'C', 'N', 'H'],
            OandaInstrumentName::UsdCzk => seq!['U', 'S', 'D', '_', 'C', 'Z', 'K'],
            OandaInstrumentName::UsdDkk => seq!['U', 'S', 'D', '_', 'D', 'K', 'K'],
            OandaInstrumentName::UsdHkd => seq!['U', 'S', 'D', '_', 'H', 'K', 'D'],
            OandaInstrumentName::UsdHuf => seq!['U', 'S', 'D', '_', 'H', 'U', 'F'],
            OandaInstrumentName::UsdJpy => seq!['U', 'S', 'D', '_', 'J', 'P', 'Y'],
            OandaInstrumentName::UsdMxn => seq!['U', 'S', 'D', '_', 'M', 'X', 'N'],
            OandaInstrumentName::UsdNok => seq!['U', 'S', 'D', '_', 'N', 'O', 'K'],
            OandaInstrumentName::UsdPln => seq!['U', 'S', 'D', '_', 'P', 'L', 'N'],
            OandaInstrumentName::UsdSek => seq!['U', 'S', 'D', '_', 'S', 'E', 'K'],
            OandaInstrumentName::UsdSgd => seq!['U', 'S', 'D', '_', 'S', 'G', 'D'],
            OandaInstrumentName::UsdThb => seq!['U', 'S', 'D', '_', 'T', 'H', 'B'],
            OandaInstrumentName::UsdTry => seq!['U', 'S', 'D', '_', 'T', 'R', 'Y'],
            OandaInstrumentName::UsdZar => seq!['U', 'S', 'D', '_', 'Z', 'A', 'R'],
            OandaInstrumentName::WheatUsd => seq!['W', 'H', 'E', 'A', 'T', '_', 'U', 'S', 'D'],
            OandaInstrumentName::WticoUsd => seq!['W', 'T', 'I', 'C', 'O', '_', 'U', 'S', 'D'],
            OandaInstrumentName::XagAud => seq!['X', 'A', 'G', '_', 'A', 'U', 'D'],
            OandaInstrumentName::XagCad => seq!['X', 'A', 'G', '_', 'C', 'A', 'D'],
            OandaInstrumentName::XagChf => seq!['X', 'A', 'G', '_', 'C', 'H', 'F'],
            OandaInstrumentName::XagEur => seq!['X', 'A', 'G', '_', 'E', 'U', 'R'],
            OandaInstrumentName::XagGbp => seq!['X', 'A', 'G', '_', 'G', 'B', 'P'],
            OandaInstrumentName::XagHkd => seq!['X', 'A', 'G', '_', 'H', 'K', 'D'],
            OandaInstrumentName::XagJpy => seq!['X', 'A', 'G', '_', 'J', 'P', 'Y'],
            OandaInstrumentName::XagNzd => seq!['X', 'A', 'G', '_', 'N', 'Z', 'D'],
            OandaInstrumentName::XagSgd => seq!['X', 'A', 'G', '_', 'S', 'G', 'D'],
            OandaInstrumentName::XagUsd => seq!['X', 'A', 'G', '_', 'U', 'S', 'D'],
            OandaInstrumentName::XauAud => seq!['X', 'A', 'U', '_', 'A', 'U', 'D'],
            OandaInstrumentName::XauCad => seq!['X', 'A', 'U', '_', 'C', 'A', 'D'],
            OandaInstrumentName::XauChf => seq!['X', 'A', 'U', '_', 'C', 'H', 'F'],
            OandaInstrumentName::XauEur => seq!['X', 'A', 'U', '_', 'E', 'U', 'R'],
            OandaInstrumentName::XauGbp => seq!['X', 'A', 'U', '_', 'G', 'B', 'P'],
            OandaInstrumentName::XauHkd => seq!['X', 'A', 'U', '_', 'H', 'K', 'D'],
            OandaInstrumentName::XauJpy => seq!['X', 'A', 'U', '_', 'J', 'P', 'Y'],
            OandaInstrumentName::XauNzd => seq!['X', 'A', 'U', '_', 'N', 'Z', 'D'],
            OandaInstrumentName::XauSgd => seq!['X', 'A', 'U', '_', 'S', 'G', 'D'],
            OandaInstrumentName::XauUsd => seq!['X', 'A', 'U', '_', 'U', 'S', 'D'],
            OandaInstrumentName::XauXag => seq!['X', 'A', 'U', '_', 'X', 'A', 'G'],
            OandaInstrumentName::XcuUsd => seq!['X', 'C', 'U', '_', 'U', 'S', 'D'],
            OandaInstrumentName::XpdUsd => seq!['X', 'P', 'D', '_', 'U', 'S', 'D'],
            OandaInstrumentName::XptUsd => seq!['X', 'P', 'T', '_', 'U', 'S', 'D'],
            OandaInstrumentName::ZarJpy => seq!['Z', 'A', 'R', '_', 'J', 'P', 'Y'],
        }
    }

    /// The instrument name whose wire code is `code`, if there is one.
    pub open spec fn spec_from_code(code: Seq<char>) -> Option<Self> {
        if code.len() == 0 {
            None
        } else if code[0] == 'A' {
            Self::spec_from_code_a(code)
        } else if code[0] == 'B' {
            Self::spec_from_code_b(code)
        } else if code[0] == 'C' {
            Self::spec_from_code_c(code)
        } else if code[0] == 'D' {
            Self::spec_from_code_d(code)
        } else if code[0] == 'E' {
            Self::spec_from_code_e(code)
        } else if code[0] == 'F' {
            Self::spec_from_code_f(code)
        } else if code[0] == 'G' {
            Self::spec_from_code_g(code)
        } else if code[0] == 'H' {
            Self::spec_from_code_h(code)
        } else if code[0] == 'J' {
            Self::spec_from_code_j(code)
        } else if code[0] == 'N' {
            Self::spec_from_code_n(code)
        } else if code[0] == 'S' {
            Self::spec_from_code_s(code)
        } else if code[0] == 'T' {
            Self::spec_from_code_t(code)
        } else if code[0] == 'U' {
            Self::spec_from_code_u(code)
        } else if code[0] == 'W' {
            Self::spec_from_code_w(code)
        } else if code[0] == 'X' {
            Self::spec_from_code_x(code)
        } else if code[0] == 'Z' {
            Self::spec_from_code_z(code)
        } else {
            None
        }
    }

    /// Decodes the wire codes that begin with `A`.
    pub open spec fn spec_from_code_a(code: Seq<char>) -> Option<Self> {
        if code == seq!['A', 'U', '2', '0', '0', '_', 'A', 'U', 'D'] {
            Some(OandaInstrumentName::Au200Aud)
        } else if code == seq!['A', 'U', 'D', '_', 'C', 'A', 'D'] {
            Some(OandaInstrumentName::AudCad)
        } else if code == seq!['A', 'U', 'D', '_', 'C', 'H', 'F'] {
            Some(OandaInstrumentName::AudChf)
        } else if code == seq!['A', 'U', 'D', '_', 'H', 'K', 'D'] {
            Some(OandaInstrumentName::AudHkd)
        } else if code == seq!['A', 'U', 'D', '_', 'J', 'P', 'Y'] {
            Some(OandaInstrumentName::AudJpy)
        } else if code == seq!['A', 'U', 'D', '_', 'N', 'Z', 'D'] {
            Some(OandaInstrumentName::AudNzd)
        } else if code == seq!['A', 'U', 'D', '_', 'S', 'G', 'D'] {
            Some(OandaInstrumentName::AudSgd)
        } else if code == seq!['A', 'U', 'D', '_', 'U', 'S', 'D'] {
            Some(OandaInstrumentName::AudUsd)
        } else {
            None
        }
    }

    /// Decodes the wire codes that begin with `B`.
    pub open spec fn spec_from_code_b(code: Seq<char>) -> Option<Self> {
        if code == seq!['B', 'C', 'O', '_', 'U', 'S', 'D'] {
            Some(OandaInstrumentName::BcoUsd)
        } else {
            None
        }
    }

    /// Decodes the wire codes that begin with `C`.
    pub open spec fn spec_from_code_c(code: Seq<char>) -> Option<Self> {
        if code == seq!['C', 'A', 'D', '_', 'C', 'H', 'F'] {
            Some(OandaInstrumentName::CadChf)
        } else if code == seq!['C', 'A', 'D', '_', 'H', 'K', 'D'] {
            Some(OandaInstrumentName::CadHkd)
        } else if code == seq!['C', 'A', 'D', '_', 'J', 'P', 'Y'] {
            Some(OandaInstrumentName::CadJpy)
        } else if code == seq!['C', 'A', 'D', '_', 'S', 'G', 'D'] {
            Some(OandaInstrumentName::CadSgd)
        } else if code == seq!['C', 'H', '2', '0', '_', 'C', 'H', 'F'] {
            Some(OandaInstrumentName::Ch20Chf)
        } else if code == seq!['C', 'H', 'F', '_', 'H', 'K', 'D'] {
            Some(OandaInstrumentName::ChfHkd)
        } else if code == seq!['C', 'H', 'F', '_', 'J', 'P', 'Y'] {
            Some(OandaInstrumentName::ChfJpy)
        } else if code == seq!['C', 'H', 'F', '_', 'Z', 'A', 'R'] {
            Some(OandaInstrumentName::ChfZar)
        } else if code == seq!['C', 'H', 'I', 'N', 'A', 'H', '_', 'H', 'K', 'D'] {
            Some(OandaInstrumentName::ChinahHkd)
        } else if code == seq!['C', 'N', '5', '0', '_', 'U', 'S', 'D'] {
            Some(OandaInstrumentName::Cn50Usd)
        } else if code == seq!['C', 'O', 'R', 'N', '_', 'U', 'S', 'D'] {
            Some(OandaInstrumentName::CornUsd)
        } else {
            None
        }
    }

    /// Decodes the wire codes that begin with `D`.
    pub open spec fn spec_from_code_d(code: Seq<char>) -> Option<Self> {
        if code == seq!['D', 'E', '1', '0', 'Y', 'B', '_', 'E', 'U', 'R'] {
            Some(OandaInstrumentName::De10YbEur)
        } else if code == seq!['D', 'E', '3', '0', '_', 'E', 'U', 'R'] {
            Some(OandaInstrumentName::De30Eur)
        } else {
            None
        }
    }

    /// Decodes the wire codes that begin with `E`.
    pub open spec fn spec_from_code_e(code: Seq<char>) -> Option<Self> {
        if code == seq!['E', 'S', 'P', 'I', 'X', '_', 'E', 'U', 'R'] {
            Some(OandaInstrumentName::EspixEur)
        } else if code == seq!['E', 'U', '5', '0', '_', 'E', 'U', 'R'] {
            Some(OandaInstrumentName::Eu50Eur)
        } else if code == seq!['E', 'U', 'R', '_', 'A', 'U', 'D'] {
            Some(OandaInstrumentName::EurAud)
        } else if code == seq!['E', 'U', 'R', '_', 'C', 'A', 'D'] {
            Some(OandaInstrumentName::EurCad)
        } else if code == seq!['E', 'U', 'R', '_', 'C', 'H', 'F'] {
            Some(OandaInstrumentName::EurChf)
        } else if code == seq!['E', 'U', 'R', '_', 'C', 'Z', 'K'] {
            Some(OandaInstrumentName::EurCzk)
        } else if code == seq!['E', 'U', 'R', '_', 'D', 'K', 'K'] {
            Some(OandaInstrumentName::EurDkk)
        } else if code == seq!['E', 'U', 'R', '_', 'G', 'B', 'P'] {
            Some(OandaInstrumentName::EurGbp)
        } else if code == seq!['E', 'U', 'R', '_', 'H', 'K', 'D'] {
            Some(OandaInstrumentName::EurHkd)
        } else if code == seq!['E', 'U', 'R', '_', 'H', 'U', 'F'] {
            Some(OandaInstrumentName::EurHuf)
        } else if code == seq!['E', 'U', 'R', '_', 'J', 'P', 'Y'] {
            Some(OandaInstrumentName::EurJpy)
        } else if code == seq!['E', 'U', 'R', '_', 'N', 'O', 'K'] {
            Some(OandaInstrumentName::EurNok)
        } else if code == seq!['E', 'U', 'R', '_', 'N', 'Z', 'D'] {
            Some(OandaInstrumentName::EurNzd)
        } else if code == seq!['E', 'U', 'R', '_', 'P', 'L', 'N'] {
            Some(OandaInstrumentName::EurPln)
        } else if code == seq!['E', 'U', 'R', '_', 'S', 'E', 'K'] {
            Some(OandaInstrumentName::EurSek)
        } else if code == seq!['E', 'U', 'R', '_', 'S', 'G', 'D'] {
            Some(OandaInstrumentName::EurSgd)
        } else if code == seq!['E', 'U', 'R', '_', 'T', 'R', 'Y'] {
            Some(OandaInstrumentName::EurTry)
        } else if code == seq!['E', 'U', 'R', '_', 'U', 'S', 'D'] {
            Some(OandaInstrumentName::EurUsd)
        } else if code == seq!['E', 'U', 'R', '_', 'Z', 'A', 'R'] {
            Some(OandaInstrumentName::EurZar)
        } else {
            None
        }
    }

    /// Decodes the wire codes that begin with `F`.
    pub open spec fn spec_from_code_f(code: Seq<char>) -> Option<Self> {
        if code == seq!['F', 'R', '4', '0', '_', 'E', 'U', 'R'] {
            Some(OandaInstrumentName::Fr40Eur)
        } else {
            None
        }
    }

    /// Decodes the wire codes that begin with `G`.
    pub open spec fn spec_from_code_g(code: Seq<char>) -> Option<Self> {
        if code == seq!['G', 'B', 'P', '_', 'A', 'U', 'D'] {
            Some(OandaInstrumentName::GbpAud)
        } else if code == seq!['G', 'B', 'P', '_', 'C', 'A', 'D'] {
            Some(OandaInstrumentName::GbpCad)
        } else if code == seq!['G', 'B', 'P', '_', 'C', 'H', 'F'] {
            Some(OandaInstrumentName::GbpChf)
        } else if code == seq!['G', 'B', 'P', '_', 'H', 'K', 'D'] {
            Some(OandaInstrumentName::GbpHkd)
        } else if code == seq!['G', 'B', 'P', '_', 'J', 'P', 'Y'] {
            Some(OandaInstrumentName::GbpJpy)
        } else if code == seq!['G', 'B', 'P', '_', 'N', 'Z', 'D'] {
            Some(OandaInstrumentName::GbpNzd)
        } else if code == seq!['G', 'B', 'P', '_', 'P', 'L', 'N'] {
            Some(OandaInstrumentName::GbpPln)
        } else if code == seq!['G', 'B', 'P', '_', 'S', 'G', 'D'] {
            Some(OandaInstrumentName::GbpSgd)
        } else if code == seq!['G', 'B', 'P', '_', 'U', 'S', 'D'] {
            Some(OandaInstrumentName::GbpUsd)
        } else if code == seq!['G', 'B', 'P', '_', 'Z', 'A', 'R'] {
            Some(OandaInstrumentName::GbpZar)
        } else {
            None
        }
    }

    /// Decodes the wire codes that begin with `H`.
    pub open spec fn spec_from_code_h(code: Seq<char>) -> Option<Self> {
        if code == seq!['H', 'K', '3', '3', '_', 'H', 'K', 'D'] {
            Some(OandaInstrumentName::Hk33Hkd)
        } else if code == seq!['H', 'K', 'D', '_', 'J', 'P', 'Y'] {
            Some(OandaInstrumentName::HkdJpy)
        } else {
            None
        }
    }

    /// Decodes the wire codes that begin with `J`.
    pub open spec fn spec_from_code_j(code: Seq<char>) -> Option<Self> {
        if code == seq!['J', 'P', '2', '2', '5', '_', 'U', 'S', 'D'] {
            Some(OandaInstrumentName::Jp225Usd)
        } else if code == seq!['J', 'P', '2', '2', '5', 'Y', '_', 'J', 'P', 'Y'] {
            Some(OandaInstrumentName::Jp225YJpy)
        } else {
            None
        }
    }

    /// Decodes the wire codes that begin with `N`.
    pub open spec fn spec_from_code_n(code: Seq<char>) -> Option<Self> {
        if code == seq!['N', 'A', 'S', '1', '0', '0', '_', 'U', 'S', 'D'] {
            Some(OandaInstrumentName::Nas100Usd)
        } else if code == seq!['N', 'A', 'T', 'G', 'A', 'S', '_', 'U', 'S', 'D'] {
            Some(OandaInstrumentName::NatgasUsd)
        } else if code == seq!['N', 'L', '2', '5', '_', 'E', 'U', 'R'] {
            Some(OandaInstrumentName::Nl25Eur)
        } else if code == seq!['N', 'Z', 'D', '_', 'C', 'A', 'D'] {
            Some(OandaInstrumentName::NzdCad)
        } else if code == seq!['N', 'Z', 'D', '_', 'C', 'H', 'F'] {
            Some(OandaInstrumentName::NzdChf)
        } else if code == seq!['N', 'Z', 'D', '_', 'H', 'K', 'D'] {
            Some(OandaInstrumentName::NzdHkd)
        } else if code == seq!['N', 'Z', 'D', '_', 'J', 'P', 'Y'] {
            Some(OandaInstrumentName::NzdJpy)
        } else if code == seq!['N', 'Z', 'D', '_', 'S', 'G', 'D'] {
            Some(OandaInstrumentName::NzdSgd)
        } else if code == seq!['N', 'Z', 'D', '_', 'U', 'S', 'D'] {
            Some(OandaInstrumentName::NzdUsd)
        } else {
            None
        }
    }

    /// Decodes the wire codes that begin with `S`.
    pub open spec fn spec_from_code_s(code: Seq<char>) -> Option<Self> {
        if code == seq!['S', 'G', '3', '0', '_', 'S', 'G', 'D'] {
            Some(OandaInstrumentName::Sg30Sgd)
        } else if code == seq!['S', 'G', 'D', '_', 'C', 'H', 'F'] {
            Some(OandaInstrumentName::SgdChf)
        } else if code == seq!['S', 'G', 'D', '_', 'J', 'P', 'Y'] {
            Some(OandaInstrumentName::SgdJpy)
        } else if code == seq!['S', 'O', 'Y', 'B', 'N', '_', 'U', 'S', 'D'] {
            Some(OandaInstrumentName::SoybnUsd)
        } else if code == seq!['S', 'P', 'X', '5', '0', '0', '_', 'U', 'S', 'D'] {
            Some(OandaInstrumentName::Spx500Usd)
        } else if code == seq!['S', 'U', 'G', 'A', 'R', '_', 'U', 'S', 'D'] {
            Some(OandaInstrumentName::SugarUsd)
        } else {
            None
        }
    }

    /// Decodes the wire codes that begin with `T`.
    pub open spec fn spec_from_code_t(code: Seq<char>) -> Option<Self> {
        if code == seq!['T', 'R', 'Y', '_', 'J', 'P', 'Y'] {
            Some(OandaInstrumentName::TryJpy)
        } else {
            None
        }
    }

    /// Decodes the wire codes that begin with `U`.
    pub open spec fn spec_from_code_u(code: Seq<char>) -> Option<Self> {
        if code == seq!['U', 'K', '1', '0', '0', '_', 'G', 'B', 'P'] {
            Some(OandaInstrumentName::Uk100Gbp)
        } else if code == seq!['U', 'K', '1', '0', 'Y', 'B', '_', 'G', 'B', 'P'] {
            Some(OandaInstrumentName::Uk10YbGbp)
        } else if code == seq!['U', 'S', '2', '0', '0', '0', '_', 'U', 'S', 'D'] {
            Some(OandaInstrumentName::Us2000Usd)
        } else if code == seq!['U', 'S', '3', '0', '_', 'U', 'S', 'D'] {
            Some(OandaInstrumentName::Us30Usd)
        } else if code == seq!['U', 'S', 'B', '0', '2', 'Y', '_', 'U', 'S', 'D'] {
            Some(OandaInstrumentName::Usb02YUsd)
        } else if code == seq!['U', 'S', 'B', '0', '5', 'Y', '_', 'U', 'S', 'D'] {
            Some(OandaInstrumentName::Usb05YUsd)
        } else if code == seq!['U', 'S', 'B', '1', '0', 'Y', '_', 'U', 'S', 'D'] {
            Some(OandaInstrumentName::Usb10YUsd)
        } else if code == seq!['U', 'S', 'B', '3', '0', 'Y', '_', 'U', 'S', 'D'] {
            Some(OandaInstrumentName::Usb30YUsd)
        } else if code == seq!['U', 'S', 'D', '_', 'C', 'A', 'D'] {
            Some(OandaInstrumentName::UsdCad)
        } else if code == seq!['U', 'S', 'D', '_', 'C', 'H', 'F'] {
            Some(OandaInstrumentName::UsdChf)
        } else if code == seq!['U', 'S', 'D', '_', 'C', 'N', 'H'] {
            Some(OandaInstrumentName::UsdCnh)
        } else if code == seq!['U', 'S', 'D', '_', 'C', 'Z', 'K'] {
            Some(OandaInstrumentName::UsdCzk)
        } else if code == seq!['U', 'S', 'D', '_', 'D', 'K', 'K'] {
            Some(OandaInstrumentName::UsdDkk)
        } else if code == seq!['U', 'S', 'D', '_', 'H', 'K', 'D'] {
            Some(OandaInstrumentName::UsdHkd)
        } else if code == seq!['U', 'S', 'D', '_', 'H', 'U', 'F'] {
            Some(OandaInstrumentName::UsdHuf)
        } else if code == seq!['U', 'S', 'D', '_', 'J', 'P', 'Y'] {
            Some(OandaInstrumentName::UsdJpy)
        } else if code == seq!['U', 'S', 'D', '_', 'M', 'X', 'N'] {
            Some(OandaInstrumentName::UsdMxn)
        } else if code == seq!['U', 'S', 'D', '_', 'N', 'O', 'K'] {
            Some(OandaInstrumentName::UsdNok)
        } else if code == seq!['U', 'S', 'D', '_', 'P', 'L', 'N'] {
            Some(OandaInstrumentName::UsdPln)
        } else if code == seq!['U', 'S', 'D', '_', 'S', 'E', 'K'] {
            Some(OandaInstrumentName::UsdSek)
        } else if code == seq!['U', 'S', 'D', '_', 'S', 'G', 'D'] {
            Some(OandaInstrumentName::UsdSgd)
        } else if code == seq!['U', 'S', 'D', '_', 'T', 'H', 'B'] {
            Some(OandaInstrumentName::UsdThb)
        } else if code == seq!['U', 'S', 'D', '_', 'T', 'R', 'Y'] {
            Some(OandaInstrumentName::UsdTry)
        } else if code == seq!['U', 'S', 'D', '_', 'Z', 'A', 'R'] {
            Some(OandaInstrumentName::UsdZar)
        } else {
            None
        }
    }

    /// Decodes the wire codes that begin with `W`.
    pub open spec fn spec_from_code_w(code: Seq<char>) -> Option<Self> {
        if code == seq!['W', 'H', 'E', 'A', 'T', '_', 'U', 'S', 'D'] {
            Some(OandaInstrumentName::WheatUsd)
        } else if code == seq!['W', 'T', 'I', 'C', 'O', '_', 'U', 'S', 'D'] {
            Some(OandaInstrumentName::WticoUsd)
        } else {
            None
        }
    }

    /// Decodes the wire codes that begin with `X`.
    pub open spec fn spec_from_code_x(code: Seq<char>) -> Option<Self> {
        if code == seq!['X', 'A', 'G', '_', 'A', 'U', 'D'] {
            Some(OandaInstrumentName::XagAud)
        } else if code == seq!['X', 'A', 'G', '_', 'C', 'A', 'D'] {
            Some(OandaInstrumentName::XagCad)
        } else if code == seq!['X', 'A', 'G', '_', 'C', 'H', 'F'] {
            Some(OandaInstrumentName::XagChf)
        } else if code == seq!['X', 'A', 'G', '_', 'E', 'U', 'R'] {
            Some(OandaInstrumentName::XagEur)
        } else if code == seq!['X', 'A', 'G', '_', 'G', 'B', 'P'] {
            Some(OandaInstrumentName::XagGbp)
        } else if code == seq!['X', 'A', 'G', '_', 'H', 'K', 'D'] {
            Some(OandaInstrumentName::XagHkd)
        } else if code == seq!['X', 'A', 'G', '_', 'J', 'P', 'Y'] {
            Some(OandaInstrumentName::XagJpy)
        } else if code == seq!['X', 'A', 'G', '_', 'N', 'Z', 'D'] {
            Some(OandaInstrumentName::XagNzd)
        } else if code == seq!['X', 'A', 'G', '_', 'S', 'G', 'D'] {
            Some(OandaInstrumentName::XagSgd)
        } else if code == seq!['X', 'A', 'G', '_', 'U', 'S', 'D'] {
            Some(OandaInstrumentName::XagUsd)
        } else if code == seq!['X', 'A', 'U', '_', 'A', 'U', 'D'] {
            Some(OandaInstrumentName::XauAud)
        } else if code == seq!['X', 'A', 'U', '_', 'C', 'A', 'D'] {
            Some(OandaInstrumentName::XauCad)
        } else if code == seq!['X', 'A', 'U', '_', 'C', 'H', 'F'] {
            Some(OandaInstrumentName::XauChf)
        } else if code == seq!['X', 'A', 'U', '_', 'E', 'U', 'R'] {
            Some(OandaInstrumentName::XauEur)
        } else if code == seq!['X', 'A', 'U', '_', 'G', 'B', 'P'] {
            Some(OandaInstrumentName::XauGbp)
        } else if code == seq!['X', 'A', 'U', '_', 'H', 'K', 'D'] {
            Some(OandaInstrumentName::XauHkd)
        } else if code == seq!['X', 'A', 'U', '_', 'J', 'P', 'Y'] {
            Some(OandaInstrumentName::XauJpy)
        } else if code == seq!['X', 'A', 'U', '_', 'N', 'Z', 'D'] {
            Some(OandaInstrumentName::XauNzd)
        } else if code == seq!['X', 'A', 'U', '_', 'S', 'G', 'D'] {
            Some(OandaInstrumentName::XauSgd)
        } else if code == seq!['X', 'A', 'U', '_', 'U', 'S', 'D'] {
            Some(OandaInstrumentName::XauUsd)
        } else if code == seq!['X', 'A', 'U', '_', 'X', 'A', 'G'] {
            Some(OandaInstrumentName::XauXag)
        } else if code == seq!['X', 'C', 'U', '_', 'U', 'S', 'D'] {
            Some(OandaInstrumentName::XcuUsd)
        } else if code == seq!['X', 'P', 'D', '_', 'U', 'S', 'D'] {
            Some(OandaInstrumentName::XpdUsd)
        } else if code == seq!['X', 'P', 'T', '_', 'U', 'S', 'D'] {
            Some(OandaInstrumentName::XptUsd)
        } else {
            None
        }
    }

    /// Decodes the wire codes that begin with `Z`.
    pub open spec fn spec_from_code_z(code: Seq<char>) -> Option<Self> {
        if code == seq!['Z', 'A', 'R', '_', 'J', 'P', 'Y'] {
            Some(OandaInstrumentName::ZarJpy)
        } else {
            None
        }
    }

    /// The instrument name at position `index` in declaration order.
    pub open spec fn spec_at(index: int) -> Option<Self> {
        if index == 0 {
            Some(OandaInstrumentName::Au200Aud)
        } else if index == 1 {
            Some(OandaInstrumentName::AudCad)
        } else if index == 2 {
            Some(OandaInstrumentName::AudChf)
        } else if index == 3 {
            Some(OandaInstrumentName::AudHkd)
        } else if index == 4 {
            Some(OandaInstrumentName::AudJpy)
        } else if index == 5 {
            Some(OandaInstrumentName::AudNzd)
        } else if index == 6 {
            Some(OandaInstrumentName::AudSgd)
        } else if index == 7 {
            Some(OandaInstrumentName::AudUsd)
        } else if index == 8 {
            Some(OandaInstrumentName::BcoUsd)
        } else if index == 9 {
            Some(OandaInstrumentName::CadChf)
        } else if index == 10 {
            Some(OandaInstrumentName::CadHkd)
        } else if index == 11 {
            Some(OandaInstrumentName::CadJpy)
        } else if index == 12 {
            Some(OandaInstrumentName::CadSgd)
        } else if index == 13 {
            Some(OandaInstrumentName::Ch20Chf)
        } else if index == 14 {
            Some(OandaInstrumentName::ChfHkd)
        } else if index == 15 {
            Some(OandaInstrumentName::ChfJpy)
        } else if index == 16 {
            Some(OandaInstrumentName::ChfZar)
        } else if index == 17 {
            Some(OandaInstrumentName::ChinahHkd)
        } else if index == 18 {
            Some(OandaInstrumentName::Cn50Usd)
        } else if index == 19 {
            Some(OandaInstrumentName::CornUsd)
        } else if index == 20 {
            Some(OandaInstrumentName::De10YbEur)
        } else if index == 21 {
            Some(OandaInstrumentName::De30Eur)
        } else if index == 22 {
            Some(OandaInstrumentName::EspixEur)
        } else if index == 23 {
            Some(OandaInstrumentName::Eu50Eur)
        } else if index == 24 {
            Some(OandaInstrumentName::EurAud)
        } else if index == 25 {
            Some(OandaInstrumentName::EurCad)
        } else if index == 26 {
            Some(OandaInstrumentName::EurChf)
        } else if index == 27 {
            Some(OandaInstrumentName::EurCzk)
        } else if index == 28 {
            Some(OandaInstrumentName::EurDkk)
        } else if index == 29 {
            Some(OandaInstrumentName::EurGbp)
        } else if index == 30 {
            Some(OandaInstrumentName::EurHkd)
        } else if index == 31 {
            Some(OandaInstrumentName::EurHuf)
        } else if index == 32 {
            Some(OandaInstrumentName::EurJpy)
        } else if index == 33 {
            Some(OandaInstrumentName::EurNok)
        } else if index == 34 {
            Some(OandaInstrumentName::EurNzd)
        } else if index == 35 {
            Some(OandaInstrumentName::EurPln)
        } else if index == 36 {
            Some(OandaInstrumentName::EurSek)
        } else if index == 37 {
            Some(OandaInstrumentName::EurSgd)
        } else if index == 38 {
            Some(OandaInstrumentName::EurTry)
        } else if index == 39 {
            Some(OandaInstrumentName::EurUsd)
        } else if index == 40 {
            Some(OandaInstrumentName::EurZar)
        } else if index == 41 {
            Some(OandaInstrumentName::Fr40Eur)
        } else if index == 42 {
            Some(OandaInstrumentName::GbpAud)
        } else if index == 43 {
            Some(OandaInstrumentName::GbpCad)
        } else if index == 44 {
            Some(OandaInstrumentName::GbpChf)
        } else if index == 45 {
            Some(OandaInstrumentName::GbpHkd)
        } else if index == 46 {
            Some(OandaInstrumentName::GbpJpy)
        } else if index == 47 {
            Some(OandaInstrumentName::GbpNzd)
        } else if index == 48 {
            Some(OandaInstrumentName::GbpPln)
        } else if index == 49 {
            Some(OandaInstrumentName::GbpSgd)
        } else if index == 50 {
            Some(OandaInstrumentName::GbpUsd)
        } else if index == 51 {
            Some(OandaInstrumentName::GbpZar)
        } else if index == 52 {
            Some(OandaInstrumentName::Hk33Hkd)
        } else if index == 53 {
            Some(OandaInstrumentName::HkdJpy)
        } else if index == 54 {
            Some(OandaInstrumentName::Jp225Usd)
        } else if index == 55 {
            Some(OandaInstrumentName::Jp225YJpy)
        } else if index == 56 {
            Some(OandaInstrumentName::Nas100Usd)
        } else if index == 57 {
            Some(OandaInstrumentName::NatgasUsd)
        } else if index == 58 {
            Some(OandaInstrumentName::Nl25Eur)
        } else if index == 59 {
            Some(OandaInstrumentName::NzdCad)
        } else if index == 60 {
            Some(OandaInstrumentName::NzdChf)
        } else if index == 61 {
            Some(OandaInstrumentName::NzdHkd)
        } else if index == 62 {
            Some(OandaInstrumentName::NzdJpy)
        } else if index == 63 {
            Some(OandaInstrumentName::NzdSgd)
        } else if index == 64 {
            Some(OandaInstrumentName::NzdUsd)
        } else if index == 65 {
            Some(OandaInstrumentName::Sg30Sgd)
        } else if index == 66 {
            Some(OandaInstrumentName::SgdChf)
        } else if index == 67 {
            Some(OandaInstrumentName::SgdJpy)
        } else if index == 68 {
            Some(OandaInstrumentName::SoybnUsd)
        } else if index == 69 {
            Some(OandaInstrumentName::Spx500Usd)
        } else if index == 70 {
            Some(OandaInstrumentName::SugarUsd)
        } else if index == 71 {
            Some(OandaInstrumentName::TryJpy)
        } else if index == 72 {
            Some(OandaInstrumentName::Uk100Gbp)
        } else if index == 73 {
            Some(OandaInstrumentName::Uk10YbGbp)
        } else if index == 74 {
            Some(OandaInstrumentName::Us2000Usd)
        } else if index == 75 {
            Some(OandaInstrumentName::Us30Usd)
        } else if index == 76 {
            Some(OandaInstrumentName::Usb02YUsd)
        } else if index == 77 {
            Some(OandaInstrumentName::Usb05YUsd)
        } else if index == 78 {
            Some(OandaInstrumentName::Usb10YUsd)
        } else if index == 79 {
            Some(OandaInstrumentName::Usb30YUsd)
        } else if index == 80 {
            Some(OandaInstrumentName::UsdCad)
        } else if index == 81 {
            Some(OandaInstrumentName::UsdChf)
        } else if index == 82 {
            Some(OandaInstrumentName::UsdCnh)
        } else if index == 83 {
            Some(OandaInstrumentName::UsdCzk)
        } else if index == 84 {
            Some(OandaInstrumentName::UsdDkk)
        } else if index == 85 {
            Some(OandaInstrumentName::UsdHkd)
        } else if index == 86 {
            Some(OandaInstrumentName::UsdHuf)
        } else if index == 87 {
            Some(OandaInstrumentName::UsdJpy)
        } else if index == 88 {
            Some(OandaInstrumentName::UsdMxn)
        } else if index == 89 {
            Some(OandaInstrumentName::UsdNok)
        } else if index == 90 {
            Some(OandaInstrumentName::UsdPln)
        } else if index == 91 {
            Some(OandaInstrumentName::UsdSek)
        } else if index == 92 {
            Some(OandaInstrumentName::UsdSgd)
        } else if index == 93 {
            Some(OandaInstrumentName::UsdThb)
        } else if index == 94 {
            Some(OandaInstrumentName::UsdTry)
        } else if index == 95 {
            Some(OandaInstrumentName::UsdZar)
        } else if index == 96 {
            Some(OandaInstrumentName::WheatUsd)
        } else if index == 97 {
            Some(OandaInstrumentName::WticoUsd)
        } else if index == 98 {
            Some(OandaInstrumentName::XagAud)
        } else if index == 99 {
            Some(OandaInstrumentName::XagCad)
        } else if index == 100 {
            Some(OandaInstrumentName::XagChf)
        } else if index == 101 {
            Some(OandaInstrumentName::XagEur)
        } else if index == 102 {
            Some(OandaInstrumentName::XagGbp)
        } else if index == 103 {
            Some(OandaInstrumentName::XagHkd)
        } else if index == 104 {
            Some(OandaInstrumentName::XagJpy)
        } else if index == 105 {
            Some(OandaInstrumentName::XagNzd)
        } else if index == 106 {
            Some(OandaInstrumentName::XagSgd)
        } else if index == 107 {
            Some(OandaInstrumentName::XagUsd)
        } else if index == 108 {
            Some(OandaInstrumentName::XauAud)
        } else if index == 109 {
            Some(OandaInstrumentName::XauCad)
        } else if index == 110 {
            Some(OandaInstrumentName::XauChf)
        } else if index == 111 {
            Some(OandaInstrumentName::XauEur)
        } else if index == 112 {
            Some(OandaInstrumentName::XauGbp)
        } else if index == 113 {
            Some(OandaInstrumentName::XauHkd)
        } else if index == 114 {
            Some(OandaInstrumentName::XauJpy)
        } else if index == 115 {
            Some(OandaInstrumentName::XauNzd)
        } else if index == 116 {
            Some(OandaInstrumentName::XauSgd)
        } else if index == 117 {
            Some(OandaInstrumentName::XauUsd)
        } else if index == 118 {
            Some(OandaInstrumentName::XauXag)
        } else if index == 119 {
            Some(OandaInstrumentName::XcuUsd)
        } else if index == 120 {
            Some(OandaInstrumentName::XpdUsd)
        } else if index == 121 {
            Some(OandaInstrumentName::XptUsd)
        } else if index == 122 {
            Some(OandaInstrumentName::ZarJpy)
        } else {
            None
        }
    }

    /// The position of this instrument name in declaration order.
    pub open spec fn spec_index(self) -> int {
        match self {
            OandaInstrumentName::Au200Aud => 0,
            OandaInstrumentName::AudCad => 1,
            OandaInstrumentName::AudChf => 2,
            OandaInstrumentName::AudHkd => 3,
            OandaInstrumentName::AudJpy => 4,
            OandaInstrumentName::AudNzd => 5,
            OandaInstrumentName::AudSgd => 6,
            OandaInstrumentName::AudUsd => 7,
            OandaInstrumentName::BcoUsd => 8,
            OandaInstrumentName::CadChf => 9,
            OandaInstrumentName::CadHkd => 10,
            OandaInstrumentName::CadJpy => 11,
            OandaInstrumentName::CadSgd => 12,
            OandaInstrumentName::Ch20Chf => 13,
            OandaInstrumentName::ChfHkd => 14,
            OandaInstrumentName::ChfJpy => 15,
            OandaInstrumentName::ChfZar => 16,
            OandaInstrumentName::ChinahHkd => 17,
            OandaInstrumentName::Cn50Usd => 18,
            OandaInstrumentName::CornUsd => 19,
            OandaInstrumentName::De10YbEur => 20,
            OandaInstrumentName::De30Eur => 21,
            OandaInstrumentName::EspixEur => 22,
            OandaInstrumentName::Eu50Eur => 23,
            OandaInstrumentName::EurAud => 24,
            OandaInstrumentName::EurCad => 25,
            OandaInstrumentName::EurChf => 26,
            OandaInstrumentName::EurCzk => 27,
            OandaInstrumentName::EurDkk => 28,
            OandaInstrumentName::EurGbp => 29,
            OandaInstrumentName::EurHkd => 30,
            OandaInstrumentName::EurHuf => 31,
            OandaInstrumentName::EurJpy => 32,
            OandaInstrumentName::EurNok => 33,
            OandaInstrumentName::EurNzd => 34,
            OandaInstrumentName::EurPln => 35,
            OandaInstrumentName::EurSek => 36,
            OandaInstrumentName::EurSgd => 37,
            OandaInstrumentName::EurTry => 38,
            OandaInstrumentName::EurUsd => 39,
            OandaInstrumentName::EurZar => 40,
            OandaInstrumentName::Fr40Eur => 41,
            OandaInstrumentName::GbpAud => 42,
            OandaInstrumentName::GbpCad => 43,
            OandaInstrumentName::GbpChf => 44,
            OandaInstrumentName::GbpHkd => 45,
            OandaInstrumentName::GbpJpy => 46,
            OandaInstrumentName::GbpNzd => 47,
            OandaInstrumentName::GbpPln => 48,
            OandaInstrumentName::GbpSgd => 49,
            OandaInstrumentName::GbpUsd => 50,
            OandaInstrumentName::GbpZar => 51,
            OandaInstrumentName::Hk33Hkd => 52,
            OandaInstrumentName::HkdJpy => 53,
            OandaInstrumentName::Jp225Usd => 54,
            OandaInstrumentName::Jp225YJpy => 55,
            OandaInstrumentName::Nas100Usd => 56,
            OandaInstrumentName::NatgasUsd => 57,
            OandaInstrumentName::Nl25Eur => 58,
            OandaInstrumentName::NzdCad => 59,
            OandaInstrumentName::NzdChf => 60,
            OandaInstrumentName::NzdHkd => 61,
            OandaInstrumentName::NzdJpy => 62,
            OandaInstrumentName::NzdSgd => 63,
            OandaInstrumentName::NzdUsd => 64,
            OandaInstrumentName::Sg30Sgd => 65,
            OandaInstrumentName::SgdChf => 66,
            OandaInstrumentName::SgdJpy => 67,
            OandaInstrumentName::SoybnUsd => 68,
            OandaInstrumentName::Spx500Usd => 69,
            OandaInstrumentName::SugarUsd => 70,
            OandaInstrumentName::TryJpy => 71,
            OandaInstrumentName::Uk100Gbp => 72,
            OandaInstrumentName::Uk10YbGbp => 73,
            OandaInstrumentName::Us2000Usd => 74,
            OandaInstrumentName::Us30Usd => 75,
            OandaInstrumentName::Usb02YUsd => 76,
            OandaInstrumentName::Usb05YUsd => 77,
            OandaInstrumentName::Usb10YUsd => 78,
            OandaInstrumentName::Usb30YUsd => 79,
            OandaInstrumentName::UsdCad => 80,
            OandaInstrumentName::UsdChf => 81,
            OandaInstrumentName::UsdCnh => 82,
            OandaInstrumentName::UsdCzk => 83,
            OandaInstrumentName::UsdDkk => 84,
            OandaInstrumentName::UsdHkd => 85,
            OandaInstrumentName::UsdHuf => 86,
            OandaInstrumentName::UsdJpy => 87,
            OandaInstrumentName::UsdMxn => 88,
            OandaInstrumentName::UsdNok => 89,
            OandaInstrumentName::UsdPln => 90,
            OandaInstrumentName::UsdSek => 91,
            OandaInstrumentName::UsdSgd => 92,
            OandaInstrumentName::UsdThb => 93,
            OandaInstrumentName::UsdTry => 94,
            OandaInstrumentName::UsdZar => 95,
            OandaInstrumentName::WheatUsd => 96,
            OandaInstrumentName::WticoUsd => 97,
            OandaInstrumentName::XagAud => 98,
            OandaInstrumentName::XagCad => 99,
            OandaInstrumentName::XagChf => 100,
            OandaInstrumentName::XagEur => 101,
            OandaInstrumentName::XagGbp => 102,
            OandaInstrumentName::XagHkd => 103,
            OandaInstrumentName::XagJpy => 104,
            OandaInstrumentName::XagNzd => 105,
            OandaInstrumentName::XagSgd => 106,
            OandaInstrumentName::XagUsd => 107,
            OandaInstrumentName::XauAud => 108,
            OandaInstrumentName::XauCad => 109,
            OandaInstrumentName::XauChf => 110,
            OandaInstrumentName::XauEur => 111,
            OandaInstrumentName::XauGbp => 112,
            OandaInstrumentName::XauHkd => 113,
            OandaInstrumentName::XauJpy => 114,
            OandaInstrumentName::XauNzd => 115,
            OandaInstrumentName::XauSgd => 116,
            OandaInstrumentName::XauUsd => 117,
            OandaInstrumentName::XauXag => 118,
            OandaInstrumentName::XcuUsd => 119,
            OandaInstrumentName::XpdUsd => 120,
            OandaInstrumentName::XptUsd => 121,
            OandaInstrumentName::ZarJpy => 122,
        }
    }

    /// Returns the wire code of this instrument name.
    pub fn code(&self) -> (code: &'static str)
        ensures
            code@ == self.spec_code(),
    {
        match self {
            OandaInstrumentName::Au200Aud => {
                proof {
                    reveal_strlit("AU200_AUD");
                }
                "AU200_AUD"
            },
            OandaInstrumentName::AudCad => {
                proof {
                    reveal_strlit("AUD_CAD");
                }
                "AUD_CAD"
            },
            OandaInstrumentName::AudChf => {
                proof {
                    reveal_strlit("AUD_CHF");
                }
                "AUD_CHF"
            },
            OandaInstrumentName::AudHkd => {
                proof {
                    reveal_strlit("AUD_HKD");
                }
                "AUD_HKD"
            },
            OandaInstrumentName::AudJpy => {
                proof {
                    reveal_strlit("AUD_JPY");
                }
                "AUD_JPY"
            },
            OandaInstrumentName::AudNzd => {
                proof {
                    reveal_strlit("AUD_NZD");
                }
                "AUD_NZD"
            },
            OandaInstrumentName::AudSgd => {
                proof {
                    reveal_strlit("AUD_SGD");
                }
                "AUD_SGD"
            },
            OandaInstrumentName::AudUsd => {
                proof {
                    reveal_strlit("AUD_USD");
                }
                "AUD_USD"
            },
            OandaInstrumentName::BcoUsd => {
                proof {
                    reveal_strlit("BCO_USD");
                }
                "BCO_USD"
            },
            OandaInstrumentName::CadChf => {
                proof {
                    reveal_strlit("CAD_CHF");
                }
                "CAD_CHF"
            },
            OandaInstrumentName::CadHkd => {
                proof {
                    reveal_strlit("CAD_HKD");
                }
                "CAD_HKD"
            },
            OandaInstrumentName::CadJpy => {
                proof {
                    reveal_strlit("CAD_JPY");
                }
                "CAD_JPY"
            },
            OandaInstrumentName::CadSgd => {
                proof {
                    reveal_strlit("CAD_SGD");
                }
                "CAD_SGD"
            },
            OandaInstrumentName::Ch20Chf => {
                proof {
                    reveal_strlit("CH20_CHF");
                }
                "CH20_CHF"
            },
            OandaInstrumentName::ChfHkd => {
                proof {
                    reveal_strlit("CHF_HKD");
                }
                "CHF_HKD"
            },
            OandaInstrumentName::ChfJpy => {
                proof {
                    reveal_strlit("CHF_JPY");
                }
                "CHF_JPY"
            },
            OandaInstrumentName::ChfZar => {
                proof {
                    reveal_strlit("CHF_ZAR");
                }
                "CHF_ZAR"
            },
            OandaInstrumentName::ChinahHkd => {
                proof {
                    reveal_strlit("CHINAH_HKD");
                }
                "CHINAH_HKD"
            },
            OandaInstrumentName::Cn50Usd => {
                proof {
                    reveal_strlit("CN50_USD");
                }
                "CN50_USD"
            },
            OandaInstrumentName::CornUsd => {
                proof {
                    reveal_strlit("CORN_USD");
                }
                "CORN_USD"
            },
            OandaInstrumentName::De10YbEur => {
                proof {
                    reveal_strlit("DE10YB_EUR");
                }
                "DE10YB_EUR"
            },
            OandaInstrumentName::De30Eur => {
                proof {
                    reveal_strlit("DE30_EUR");
                }
                "DE30_EUR"
            },
            OandaInstrumentName::EspixEur => {
                proof {
                    reveal_strlit("ESPIX_EUR");
                }
                "ESPIX_EUR"
            },
            OandaInstrumentName::Eu50Eur => {
                proof {
                    reveal_strlit("EU50_EUR");
                }
                "EU50_EUR"
            },
            OandaInstrumentName::EurAud => {
                proof {
                    reveal_strlit("EUR_AUD");
                }
                "EUR_AUD"
            },
            OandaInstrumentName::EurCad => {
                proof {
                    reveal_strlit("EUR_CAD");
                }
                "EUR_CAD"
            },
            OandaInstrumentName::EurChf => {
                proof {
                    reveal_strlit("EUR_CHF");
                }
                "EUR_CHF"
            },
            OandaInstrumentName::EurCzk => {
                proof {
                    reveal_strlit("EUR_CZK");
                }
                "EUR_CZK"
            },
            OandaInstrumentName::EurDkk => {
                proof {
                    reveal_strlit("EUR_DKK");
                }
                "EUR_DKK"
            },
            OandaInstrumentName::EurGbp => {
                proof {
                    reveal_strlit("EUR_GBP");
                }
                "EUR_GBP"
            },
            OandaInstrumentName::EurHkd => {
                proof {
                    reveal_strlit("EUR_HKD");
                }
                "EUR_HKD"
            },
            OandaInstrumentName::EurHuf => {
                proof {
                    reveal_strlit("EUR_HUF");
                }
                "EUR_HUF"
            },
            OandaInstrumentName::EurJpy => {
                proof {
                    reveal_strlit("EUR_JPY");
                }
                "EUR_JPY"
            },
            OandaInstrumentName::EurNok => {
                proof {
                    reveal_strlit("EUR_NOK");
                }
                "EUR_NOK"
            },
            OandaInstrumentName::EurNzd => {
                proof {
                    reveal_strlit("EUR_NZD");
                }
                "EUR_NZD"
            },
            OandaInstrumentName::EurPln => {
                proof {
                    reveal_strlit("EUR_PLN");
                }
                "EUR_PLN"
            },
            OandaInstrumentName::EurSek => {
                proof {
                    reveal_strlit("EUR_SEK");
                }
                "EUR_SEK"
            },
            OandaInstrumentName::EurSgd => {
                proof {
                    reveal_strlit("EUR_SGD");
                }
                "EUR_SGD"
            },
            OandaInstrumentName::EurTry => {
                proof {
                    reveal_strlit("EUR_TRY");
                }
                "EUR_TRY"
            },
            OandaInstrumentName::EurUsd => {
                proof {
                    reveal_strlit("EUR_USD");
                }
                "EUR_USD"
            },
            OandaInstrumentName::EurZar => {
                proof {
                    reveal_strlit("EUR_ZAR");
                }
                "EUR_ZAR"
            },
            OandaInstrumentName::Fr40Eur => {
                proof {
                    reveal_strlit("FR40_EUR");
                }
                "FR40_EUR"
            },
            OandaInstrumentName::GbpAud => {
                proof {
                    reveal_strlit("GBP_AUD");
                }
                "GBP_AUD"
            },
            OandaInstrumentName::GbpCad => {
                proof {
                    reveal_strlit("GBP_CAD");
                }
                "GBP_CAD"
            },
            OandaInstrumentName::GbpChf => {
                proof {
                    reveal_strlit("GBP_CHF");
                }
                "GBP_CHF"
            },
            OandaInstrumentName::GbpHkd => {
                proof {
                    reveal_strlit("GBP_HKD");
                }
                "GBP_HKD"
            },
            OandaInstrumentName::GbpJpy => {
                proof {
                    reveal_strlit("GBP_JPY");
                }
                "GBP_JPY"
            },
            OandaInstrumentName::GbpNzd => {
                proof {
                    reveal_strlit("GBP_NZD");
                }
                "GBP_NZD"
            },
            OandaInstrumentName::GbpPln => {
                proof {
                    reveal_strlit("GBP_PLN");
                }
                "GBP_PLN"
            },
            OandaInstrumentName::GbpSgd => {
                proof {
                    reveal_strlit("GBP_SGD");
                }
                "GBP_SGD"
            },
            OandaInstrumentName::GbpUsd => {
                proof {
                    reveal_strlit("GBP_USD");
                }
                "GBP_USD"
            },
            OandaInstrumentName::GbpZar => {
                proof {
                    reveal_strlit("GBP_ZAR");
                }
                "GBP_ZAR"
            },
            OandaInstrumentName::Hk33Hkd => {
                proof {
                    reveal_strlit("HK33_HKD");
                }
                "HK33_HKD"
            },
            OandaInstrumentName::HkdJpy => {
                proof {
                    reveal_strlit("HKD_JPY");
                }
                "HKD_JPY"
            },
            OandaInstrumentName::Jp225Usd => {
                proof {
                    reveal_strlit("JP225_USD");
                }
                "JP225_USD"
            },
            OandaInstrumentName::Jp225YJpy => {
                proof {
                    reveal_strlit("JP225Y_JPY");
                }
                "JP225Y_JPY"
            },
            OandaInstrumentName::Nas100Usd => {
                proof {
                    reveal_strlit("NAS100_USD");
                }
                "NAS100_USD"
            },
            OandaInstrumentName::NatgasUsd => {
                proof {
                    reveal_strlit("NATGAS_USD");
                }
                "NATGAS_USD"
            },
            OandaInstrumentName::Nl25Eur => {
                proof {
                    reveal_strlit("NL25_EUR");
                }
                "NL25_EUR"
            },
            OandaInstrumentName::NzdCad => {
                proof {
                    reveal_strlit("NZD_CAD");
                }
                "NZD_CAD"
            },
            OandaInstrumentName::NzdChf => {
                proof {
                    reveal_strlit("NZD_CHF");
                }
                "NZD_CHF"
            },
            OandaInstrumentName::NzdHkd => {
                proof {
                    reveal_strlit("NZD_HKD");
                }
                "NZD_HKD"
            },
            OandaInstrumentName::NzdJpy => {
                proof {
                    reveal_strlit("NZD_JPY");
                }
                "NZD_JPY"
            },
            OandaInstrumentName::NzdSgd => {
                proof {
                    reveal_strlit("NZD_SGD");
                }
                "NZD_SGD"
            },
            OandaInstrumentName::NzdUsd => {
                proof {
                    reveal_strlit("NZD_USD");
                }
                "NZD_USD"
            },
            OandaInstrumentName::Sg30Sgd => {
                proof {
                    reveal_strlit("SG30_SGD");
                }
                "SG30_SGD"
            },
            OandaInstrumentName::SgdChf => {
                proof {
                    reveal_strlit("SGD_CHF");
                }
                "SGD_CHF"
            },
            OandaInstrumentName::SgdJpy => {
                proof {
                    reveal_strlit("SGD_JPY");
                }
                "SGD_JPY"
            },
            OandaInstrumentName::SoybnUsd => {
                proof {
                    reveal_strlit("SOYBN_USD");
                }
                "SOYBN_USD"
            },
            OandaInstrumentName::Spx500Usd => {
                proof {
                    reveal_strlit("SPX500_USD");
                }
                "SPX500_USD"
            },
            OandaInstrumentName::SugarUsd => {
                proof {
                    reveal_strlit("SUGAR_USD");
                }
                "SUGAR_USD"
            },
            OandaInstrumentName::TryJpy => {
                proof {
                    reveal_strlit("TRY_JPY");
                }
                "TRY_JPY"
            },
            OandaInstrumentName::Uk100Gbp => {
                proof {
                    reveal_strlit("UK100_GBP");
                }
                "UK100_GBP"
            },
            OandaInstrumentName::Uk10YbGbp => {
                proof {
                    reveal_strlit("UK10YB_GBP");
                }
                "UK10YB_GBP"
            },
            OandaInstrumentName::Us2000Usd => {
                proof {
                    reveal_strlit("US2000_USD");
                }
                "US2000_USD"
            },
            OandaInstrumentName::Us30Usd => {
                proof {
                    reveal_strlit("US30_USD");
                }
                "US30_USD"
            },
            OandaInstrumentName::Usb02YUsd => {
                proof {
                    reveal_strlit("USB02Y_USD");
                }
                "USB02Y_USD"
            },
            OandaInstrumentName::Usb05YUsd => {
                proof {
                    reveal_strlit("USB05Y_USD");
                }
                "USB05Y_USD"
            },
            OandaInstrumentName::Usb10YUsd => {
                proof {
                    reveal_strlit("USB10Y_USD");
                }
                "USB10Y_USD"
            },
            OandaInstrumentName::Usb30YUsd => {
                proof {
                    reveal_strlit("USB30Y_USD");
                }
                "USB30Y_USD"
            },
            OandaInstrumentName::UsdCad => {
                proof {
                    reveal_strlit("USD_CAD");
                }
                "USD_CAD"
            },
            OandaInstrumentName::UsdChf => {
                proof {
                    reveal_strlit("USD_CHF");
                }
                "USD_CHF"
            },
            OandaInstrumentName::UsdCnh => {
                proof {
                    reveal_strlit("USD_CNH");
                }
                "USD_CNH"
            },
            OandaInstrumentName::UsdCzk => {
                proof {
                    reveal_strlit("USD_CZK");
                }
                "USD_CZK"
            },
            OandaInstrumentName::UsdDkk => {
                proof {
                    reveal_strlit("USD_DKK");
                }
                "USD_DKK"
            },
            OandaInstrumentName::UsdHkd => {
                proof {
                    reveal_strlit("USD_HKD");
                }
                "USD_HKD"
            },
            OandaInstrumentName::UsdHuf => {
                proof {
                    reveal_strlit("USD_HUF");
                }
                "USD_HUF"
            },
            OandaInstrumentName::UsdJpy => {
                proof {
                    reveal_strlit("USD_JPY");
                }
                "USD_JPY"
            },
            OandaInstrumentName::UsdMxn => {
                proof {
                    reveal_strlit("USD_MXN");
                }
                "USD_MXN"
            },
            OandaInstrumentName::UsdNok => {
                proof {
                    reveal_strlit("USD_NOK");
                }
                "USD_NOK"
            },
            OandaInstrumentName::UsdPln => {
                proof {
                    reveal_strlit("USD_PLN");
                }
                "USD_PLN"
            },
            OandaInstrumentName::UsdSek => {
                proof {
                    reveal_strlit("USD_SEK");
                }
                "USD_SEK"
            },
            OandaInstrumentName::UsdSgd => {
                proof {
                    reveal_strlit("USD_SGD");
                }
                "USD_SGD"
            },
            OandaInstrumentName::UsdThb => {
                proof {
                    reveal_strlit("USD_THB");
                }
                "USD_THB"
            },
            OandaInstrumentName::UsdTry => {
                proof {
                    reveal_strlit("USD_TRY");
                }
                "USD_TRY"
            },
            OandaInstrumentName::UsdZar => {
                proof {
                    reveal_strlit("USD_ZAR");
                }
                "USD_ZAR"
            },
            OandaInstrumentName::WheatUsd => {
                proof {
                    reveal_strlit("WHEAT_USD");
                }
                "WHEAT_USD"
            },
            OandaInstrumentName::WticoUsd => {
                proof {
                    reveal_strlit("WTICO_USD");
                }
                "WTICO_USD"
            },
            OandaInstrumentName::XagAud => {
                proof {
                    reveal_strlit("XAG_AUD");
                }
                "XAG_AUD"
            },
            OandaInstrumentName::XagCad => {
                proof {
                    reveal_strlit("XAG_CAD");
                }
                "XAG_CAD"
            },
            OandaInstrumentName::XagChf => {
                proof {
                    reveal_strlit("XAG_CHF");
                }
                "XAG_CHF"
            },
            OandaInstrumentName::XagEur => {
                proof {
                    reveal_strlit("XAG_EUR");
                }
                "XAG_EUR"
            },
            OandaInstrumentName::XagGbp => {
                proof {
                    reveal_strlit("XAG_GBP");
                }
                "XAG_GBP"
            },
            OandaInstrumentName::XagHkd => {
                proof {
                    reveal_strlit("XAG_HKD");
                }
                "XAG_HKD"
            },
            OandaInstrumentName::XagJpy => {
                proof {
                    reveal_strlit("XAG_JPY");
                }
                "XAG_JPY"
            },
            OandaInstrumentName::XagNzd => {
                proof {
                    reveal_strlit("XAG_NZD");
                }
                "XAG_NZD"
            },
            OandaInstrumentName::XagSgd => {
                proof {
                    reveal_strlit("XAG_SGD");
                }
                "XAG_SGD"
            },
            OandaInstrumentName::XagUsd => {
                proof {
                    reveal_strlit("XAG_USD");
                }
                "XAG_USD"
            },
            OandaInstrumentName::XauAud => {
                proof {
                    reveal_strlit("XAU_AUD");
                }
                "XAU_AUD"
            },
            OandaInstrumentName::XauCad => {
                proof {
                    reveal_strlit("XAU_CAD");
                }
                "XAU_CAD"
            },
            OandaInstrumentName::XauChf => {
                proof {
                    reveal_strlit("XAU_CHF");
                }
                "XAU_CHF"
            },
            OandaInstrumentName::XauEur => {
                proof {
                    reveal_strlit("XAU_EUR");
                }
                "XAU_EUR"
            },
            OandaInstrumentName::XauGbp => {
                proof {
                    reveal_strlit("XAU_GBP");
                }
                "XAU_GBP"
            },
            OandaInstrumentName::XauHkd => {
                proof {
                    reveal_strlit("XAU_HKD");
                }
                "XAU_HKD"
            },
            OandaInstrumentName::XauJpy => {
                proof {
                    reveal_strlit("XAU_JPY");
                }
                "XAU_JPY"
            },
            OandaInstrumentName::XauNzd => {
                proof {
                    reveal_strlit("XAU_NZD");
                }
                "XAU_NZD"
            },
            OandaInstrumentName::XauSgd => {
                proof {
                    reveal_strlit("XAU_SGD");
                }
                "XAU_SGD"
            },
            OandaInstrumentName::XauUsd => {
                proof {
                    reveal_strlit("XAU_USD");
                }
                "XAU_USD"
            },
            OandaInstrumentName::XauXag => {
                proof {
                    reveal_strlit("XAU_XAG");
                }
                "XAU_XAG"
            },
            OandaInstrumentName::XcuUsd => {
                proof {
                    reveal_strlit("XCU_USD");
                }
                "XCU_USD"
            },
            OandaInstrumentName::XpdUsd => {
                proof {
                    reveal_strlit("XPD_USD");
                }
                "XPD_USD"
            },
            OandaInstrumentName::XptUsd => {
                proof {
                    reveal_strlit("XPT_USD");
                }
                "XPT_USD"
            },
            OandaInstrumentName::ZarJpy => {
                proof {
                    reveal_strlit("ZAR_JPY");
                }
                "ZAR_JPY"
            },
        }
    }

    /// Returns the instrument name at position `index` in declaration order.
    pub fn at(index: usize) -> (found: Option<Self>)
        ensures
            found == Self::spec_at(index as int),
    {
        if index == 0 {
            Some(OandaInstrumentName::Au200Aud)
        } else if index == 1 {
            Some(OandaInstrumentName::AudCad)
        } else if index == 2 {
            Some(OandaInstrumentName::AudChf)
        } else if index == 3 {
            Some(OandaInstrumentName::AudHkd)
        } else if index == 4 {
            Some(OandaInstrumentName::AudJpy)
        } else if index == 5 {
            Some(OandaInstrumentName::AudNzd)
        } else if index == 6 {
            Some(OandaInstrumentName::AudSgd)
        } else if index == 7 {
            Some(OandaInstrumentName::AudUsd)
        } else if index == 8 {
            Some(OandaInstrumentName::BcoUsd)
        } else if index == 9 {
            Some(OandaInstrumentName::CadChf)
        } else if index == 10 {
            Some(OandaInstrumentName::CadHkd)
        } else if index == 11 {
            Some(OandaInstrumentName::CadJpy)
        } else if index == 12 {
            Some(OandaInstrumentName::CadSgd)
        } else if index == 13 {
            Some(OandaInstrumentName::Ch20Chf)
        } else if index == 14 {
            Some(OandaInstrumentName::ChfHkd)
        } else if index == 15 {
            Some(OandaInstrumentName::ChfJpy)
        } else if index == 16 {
            Some(OandaInstrumentName::ChfZar)
        } else if index == 17 {
            Some(OandaInstrumentName::ChinahHkd)
        } else if index == 18 {
            Some(OandaInstrumentName::Cn50Usd)
        } else if index == 19 {
            Some(OandaInstrumentName::CornUsd)
        } else if index == 20 {
            Some(OandaInstrumentName::De10YbEur)
        } else if index == 21 {
            Some(OandaInstrumentName::De30Eur)
        } else if index == 22 {
            Some(OandaInstrumentName::EspixEur)
        } else if index == 23 {
            Some(OandaInstrumentName::Eu50Eur)
        } else if index == 24 {
            Some(OandaInstrumentName::EurAud)
        } else if index == 25 {
            Some(OandaInstrumentName::EurCad)
        } else if index == 26 {
            Some(OandaInstrumentName::EurChf)
        } else if index == 27 {
            Some(OandaInstrumentName::EurCzk)
        } else if index == 28 {
            Some(OandaInstrumentName::EurDkk)
        } else if index == 29 {
            Some(OandaInstrumentName::EurGbp)
        } else if index == 30 {
            Some(OandaInstrumentName::EurHkd)
        } else if index == 31 {
            Some(OandaInstrumentName::EurHuf)
        } else if index == 32 {
            Some(OandaInstrumentName::EurJpy)
        } else if index == 33 {
            Some(OandaInstrumentName::EurNok)
        } else if index == 34 {
            Some(OandaInstrumentName::EurNzd)
        } else if index == 35 {
            Some(OandaInstrumentName::EurPln)
        } else if index == 36 {
            Some(OandaInstrumentName::EurSek)
        } else if index == 37 {
            Some(OandaInstrumentName::EurSgd)
        } else if index == 38 {
            Some(OandaInstrumentName::EurTry)
        } else if index == 39 {
            Some(OandaInstrumentName::EurUsd)
        } else if index == 40 {
            Some(OandaInstrumentName::EurZar)
        } else if index == 41 {
            Some(OandaInstrumentName::Fr40Eur)
        } else if index == 42 {
            Some(OandaInstrumentName::GbpAud)
        } else if index == 43 {
            Some(OandaInstrumentName::GbpCad)
        } else if index == 44 {
            Some(OandaInstrumentName::GbpChf)
        } else if index == 45 {
            Some(OandaInstrumentName::GbpHkd)
        } else if index == 46 {
            Some(OandaInstrumentName::GbpJpy)
        } else if index == 47 {
            Some(OandaInstrumentName::GbpNzd)
        } else if index == 48 {
            Some(OandaInstrumentName::GbpPln)
        } else if index == 49 {
            Some(OandaInstrumentName::GbpSgd)
        } else if index == 50 {
            Some(OandaInstrumentName::GbpUsd)
        } else if index == 51 {
            Some(OandaInstrumentName::GbpZar)
        } else if index == 52 {
            Some(OandaInstrumentName::Hk33Hkd)
        } else if index == 53 {
            Some(OandaInstrumentName::HkdJpy)
        } else if index == 54 {
            Some(OandaInstrumentName::Jp225Usd)
        } else if index == 55 {
            Some(OandaInstrumentName::Jp225YJpy)
        } else if index == 56 {
            Some(OandaInstrumentName::Nas100Usd)
        } else if index == 57 {
            Some(OandaInstrumentName::NatgasUsd)
        } else if index == 58 {
            Some(OandaInstrumentName::Nl25Eur)
        } else if index == 59 {
            Some(OandaInstrumentName::NzdCad)
        } else if index == 60 {
            Some(OandaInstrumentName::NzdChf)
        } else if index == 61 {
            Some(OandaInstrumentName::NzdHkd)
        } else if index == 62 {
            Some(OandaInstrumentName::NzdJpy)
        } else if index == 63 {
            Some(OandaInstrumentName::NzdSgd)
        } else if index == 64 {
            Some(OandaInstrumentName::NzdUsd)
        } else if index == 65 {
            Some(OandaInstrumentName::Sg30Sgd)
        } else if index == 66 {
            Some(OandaInstrumentName::SgdChf)
        } else if index == 67 {
            Some(OandaInstrumentName::SgdJpy)
        } else if index == 68 {
            Some(OandaInstrumentName::SoybnUsd)
        } else if index == 69 {
            Some(OandaInstrumentName::Spx500Usd)
        } else if index == 70 {
            Some(OandaInstrumentName::SugarUsd)
        } else if index == 71 {
            Some(OandaInstrumentName::TryJpy)
        } else if index == 72 {
            Some(OandaInstrumentName::Uk100Gbp)
        } else if index == 73 {
            Some(OandaInstrumentName::Uk10YbGbp)
        } else if index == 74 {
            Some(OandaInstrumentName::Us2000Usd)
        } else if index == 75 {
            Some(OandaInstrumentName::Us30Usd)
        } else if index == 76 {
            Some(OandaInstrumentName::Usb02YUsd)
        } else if index == 77 {
            Some(OandaInstrumentName::Usb05YUsd)
        } else if index == 78 {
            Some(OandaInstrumentName::Usb10YUsd)
        } else if index == 79 {
            Some(OandaInstrumentName::Usb30YUsd)
        } else if index == 80 {
            Some(OandaInstrumentName::UsdCad)
        } else if index == 81 {
            Some(OandaInstrumentName::UsdChf)
        } else if index == 82 {
            Some(OandaInstrumentName::UsdCnh)
        } else if index == 83 {
            Some(OandaInstrumentName::UsdCzk)
        } else if index == 84 {
            Some(OandaInstrumentName::UsdDkk)
        } else if index == 85 {
            Some(OandaInstrumentName::UsdHkd)
        } else if index == 86 {
            Some(OandaInstrumentName::UsdHuf)
        } else if index == 87 {
            Some(OandaInstrumentName::UsdJpy)
        } else if index == 88 {
            Some(OandaInstrumentName::UsdMxn)
        } else if index == 89 {
            Some(OandaInstrumentName::UsdNok)
        } else if index == 90 {
            Some(OandaInstrumentName::UsdPln)
        } else if index == 91 {
            Some(OandaInstrumentName::UsdSek)
        } else if index == 92 {
            Some(OandaInstrumentName::UsdSgd)
        } else if index == 93 {
            Some(OandaInstrumentName::UsdThb)
        } else if index == 94 {
            Some(OandaInstrumentName::UsdTry)
        } else if index == 95 {
            Some(OandaInstrumentName::UsdZar)
        } else if index == 96 {
            Some(OandaInstrumentName::WheatUsd)
        } else if index == 97 {
            Some(OandaInstrumentName::WticoUsd)
        } else if index == 98 {
            Some(OandaInstrumentName::XagAud)
        } else if index == 99 {
            Some(OandaInstrumentName::XagCad)
        } else if index == 100 {
            Some(OandaInstrumentName::XagChf)
        } else if index == 101 {
            Some(OandaInstrumentName::XagEur)
        } else if index == 102 {
            Some(OandaInstrumentName::XagGbp)
        } else if index == 103 {
            Some(OandaInstrumentName::XagHkd)
        } else if index == 104 {
            Some(OandaInstrumentName::XagJpy)
        } else if index == 105 {
            Some(OandaInstrumentName::XagNzd)
        } else if index == 106 {
            Some(OandaInstrumentName::XagSgd)
        } else if index == 107 {
            Some(OandaInstrumentName::XagUsd)
        } else if index == 108 {
            Some(OandaInstrumentName::XauAud)
        } else if index == 109 {
            Some(OandaInstrumentName::XauCad)
        } else if index == 110 {
            Some(OandaInstrumentName::XauChf)
        } else if index == 111 {
            Some(OandaInstrumentName::XauEur)
        } else if index == 112 {
            Some(OandaInstrumentName::XauGbp)
        } else if index == 113 {
            Some(OandaInstrumentName::XauHkd)
        } else if index == 114 {
            Some(OandaInstrumentName::XauJpy)
        } else if index == 115 {
            Some(OandaInstrumentName::XauNzd)
        } else if index == 116 {
            Some(OandaInstrumentName::XauSgd)
        } else if index == 117 {
            Some(OandaInstrumentName::XauUsd)
        } else if index == 118 {
            Some(OandaInstrumentName::XauXag)
        } else if index == 119 {
            Some(OandaInstrumentName::XcuUsd)
        } else if index == 120 {
            Some(OandaInstrumentName::XpdUsd)
        } else if index == 121 {
            Some(OandaInstrumentName::XptUsd)
        } else if index == 122 {
            Some(OandaInstrumentName::ZarJpy)
        } else {
            None
        }
    }

    /// Returns the instrument name whose wire code is `code`, or `None` when no
    /// instrument name has that code.
    pub fn from_code(code: &str) -> (found: Option<Self>)
        ensures
            found == Self::spec_from_code(code@),
    {
        let mut index: usize = 0;
        while index < Self::COUNT
            invariant
                index <= Self::COUNT,
                forall|j: int|
                    0 <= j < index ==> ((#[trigger] Self::spec_at(j)) matches Some(v)
                        && v.spec_code() != code@),
            decreases Self::COUNT - index,
        {
            let candidate = Self::at(index);
            proof {
                Self::lemma_at_is_some(index as int);
            }
            let candidate = candidate.unwrap();
            if str_equals(candidate.code(), code) {
                proof {
                    Self::lemma_from_code_of_code(candidate);
                }
                return Some(candidate);
            }
            index += 1;
        }
        proof {
            if let Some(v) = Self::spec_from_code(code@) {
                Self::lemma_code_of_from_code(code@);
                Self::lemma_index_of(v);
                assert(Self::spec_at(v.spec_index()) == Some(v));
            }
        }
        None
    }

    /// Every position below `COUNT` holds a variant.
    pub proof fn lemma_at_is_some(index: int)
        requires
            0 <= index < Self::COUNT,
        ensures
            Self::spec_at(index) is Some,
    {
    }

    /// Every variant sits at its own position below `COUNT`.
    pub proof fn lemma_index_of(value: Self)
        ensures
            0 <= value.spec_index() < Self::COUNT,
            Self::spec_at(value.spec_index()) == Some(value),
    {
    }

    /// Decoding the wire code of a instrument name gives back that instrument name.
    pub proof fn lemma_from_code_of_code(value: Self)
        ensures
            Self::spec_from_code(value.spec_code()) == Some(value),
    {
        match value {
            OandaInstrumentName::Au200Aud => Self::lemma_from_code_of_code_a0(value),
            OandaInstrumentName::AudCad => Self::lemma_from_code_of_code_a0(value),
            OandaInstrumentName::AudChf => Self::lemma_from_code_of_code_a0(value),
            OandaInstrumentName::AudHkd => Self::lemma_from_code_of_code_a0(value),
            OandaInstrumentName::AudJpy => Self::lemma_from_code_of_code_a0(value),
            OandaInstrumentName::AudNzd => Self::lemma_from_code_of_code_a0(value),
            OandaInstrumentName::AudSgd => Self::lemma_from_code_of_code_a0(value),
            OandaInstrumentName::AudUsd => Self::lemma_from_code_of_code_a0(value),
            OandaInstrumentName::BcoUsd => Self::lemma_from_code_of_code_b0(value),
            OandaInstrumentName::CadChf => Self::lemma_from_code_of_code_c0(value),
            OandaInstrumentName::CadHkd => Self::lemma_from_code_of_code_c0(value),
            OandaInstrumentName::CadJpy => Self::lemma_from_code_of_code_c0(value),
            OandaInstrumentName::CadSgd => Self::lemma_from_code_of_code_c0(value),
            OandaInstrumentName::Ch20Chf => Self::lemma_from_code_of_code_c0(value),
            OandaInstrumentName::ChfHkd => Self::lemma_from_code_of_code_c0(value),
            OandaInstrumentName::ChfJpy => Self::lemma_from_code_of_code_c0(value),
            OandaInstrumentName::ChfZar => Self::lemma_from_code_of_code_c0(value),
            OandaInstrumentName::ChinahHkd => Self::lemma_from_code_of_code_c1(value),
            OandaInstrumentName::Cn50Usd => Self::lemma_from_code_of_code_c1(value),
            OandaInstrumentName::CornUsd => Self::lemma_from_code_of_code_c1(value),
            OandaInstrumentName::De10YbEur => Self::lemma_from_code_of_code_d0(value),
            OandaInstrumentName::De30Eur => Self::lemma_from_code_of_code_d0(value),
            OandaInstrumentName::EspixEur => Self::lemma_from_code_of_code_e0(value),
            OandaInstrumentName::Eu50Eur => Self::lemma_from_code_of_code_e0(value),
            OandaInstrumentName::EurAud => Self::lemma_from_code_of_code_e0(value),
            OandaInstrumentName::EurCad => Self::lemma_from_code_of_code_e0(value),
            OandaInstrumentName::EurChf => Self::lemma_from_code_of_code_e0(value),
            OandaInstrumentName::EurCzk => Self::lemma_from_code_of_code_e0(value),
            OandaInstrumentName::EurDkk => Self::lemma_from_code_of_code_e0(value),
            OandaInstrumentName::EurGbp => Self::lemma_from_code_of_code_e0(value),
            OandaInstrumentName::EurHkd => Self::lemma_from_code_of_code_e1(value),
            OandaInstrumentName::EurHuf => Self::lemma_from_code_of_code_e1(value),
            OandaInstrumentName::EurJpy => Self::lemma_from_code_of_code_e1(value),
            OandaInstrumentName::EurNok => Self::lemma_from_code_of_code_e1(value),
            OandaInstrumentName::EurNzd => Self::lemma_from_code_of_code_e1(value),
            OandaInstrumentName::EurPln => Self::lemma_from_code_of_code_e1(value),
            OandaInstrumentName::EurSek => Self::lemma_from_code_of_code_e1(value),
            OandaInstrumentName::EurSgd => Self::lemma_from_code_of_code_e1(value),
            OandaInstrumentName::EurTry => Self::lemma_from_code_of_code_e2(value),
            OandaInstrumentName::EurUsd => Self::lemma_from_code_of_code_e2(value),
            OandaInstrumentName::EurZar => Self::lemma_from_code_of_code_e2(value),
            OandaInstrumentName::Fr40Eur => Self::lemma_from_code_of_code_f0(value),
            OandaInstrumentName::GbpAud => Self::lemma_from_code_of_code_g0(value),
            OandaInstrumentName::GbpCad => Self::lemma_from_code_of_code_g0(value),
            OandaInstrumentName::GbpChf => Self::lemma_from_code_of_code_g0(value),
            OandaInstrumentName::GbpHkd => Self::lemma_from_code_of_code_g0(value),
            OandaInstrumentName::GbpJpy => Self::lemma_from_code_of_code_g0(value),
            OandaInstrumentName::GbpNzd => Self::lemma_from_code_of_code_g0(value),
            OandaInstrumentName::GbpPln => Self::lemma_from_code_of_code_g0(value),
            OandaInstrumentName::GbpSgd => Self::lemma_from_code_of_code_g0(value),
            OandaInstrumentName::GbpUsd => Self::lemma_from_code_of_code_g1(value),
            OandaInstrumentName::GbpZar => Self::lemma_from_code_of_code_g1(value),
            OandaInstrumentName::Hk33Hkd => Self::lemma_from_code_of_code_h0(value),
            OandaInstrumentName::HkdJpy => Self::lemma_from_code_of_code_h0(value),
            OandaInstrumentName::Jp225Usd => Self::lemma_from_code_of_code_j0(value),
            OandaInstrumentName::Jp225YJpy => Self::lemma_from_code_of_code_j0(value),
            OandaInstrumentName::Nas100Usd => Self::lemma_from_code_of_code_n0(value),
            OandaInstrumentName::NatgasUsd => Self::lemma_from_code_of_code_n0(value),
            OandaInstrumentName::Nl25Eur => Self::lemma_from_code_of_code_n0(value),
            OandaInstrumentName::NzdCad => Self::lemma_from_code_of_code_n0(value),
            OandaInstrumentName::NzdChf => Self::lemma_from_code_of_code_n0(value),
            OandaInstrumentName::NzdHkd => Self::lemma_from_code_of_code_n0(value),
            OandaInstrumentName::NzdJpy => Self::lemma_from_code_of_code_n0(value),
            OandaInstrumentName::NzdSgd => Self::lemma_from_code_of_code_n0(value),
            OandaInstrumentName::NzdUsd => Self::lemma_from_code_of_code_n1(value),
            OandaInstrumentName::Sg30Sgd => Self::lemma_from_code_of_code_s0(value),
            OandaInstrumentName::SgdChf => Self::lemma_from_code_of_code_s0(value),
            OandaInstrumentName::SgdJpy => Self::lemma_from_code_of_code_s0(value),
            OandaInstrumentName::SoybnUsd => Self::lemma_from_code_of_code_s0(value),
            OandaInstrumentName::Spx500Usd => Self::lemma_from_code_of_code_s0(value),
            OandaInstrumentName::SugarUsd => Self::lemma_from_code_of_code_s0(value),
            OandaInstrumentName::TryJpy => Self::lemma_from_code_of_code_t0(value),
            OandaInstrumentName::Uk100Gbp => Self::lemma_from_code_of_code_u0(value),
            OandaInstrumentName::Uk10YbGbp => Self::lemma_from_code_of_code_u0(value),
            OandaInstrumentName::Us2000Usd => Self::lemma_from_code_of_code_u0(value),
            OandaInstrumentName::Us30Usd => Self::lemma_from_code_of_code_u0(value),
            OandaInstrumentName::Usb02YUsd => Self::lemma_from_code_of_code_u0(value),
            OandaInstrumentName::Usb05YUsd => Self::lemma_from_code_of_code_u0(value),
            OandaInstrumentName::Usb10YUsd => Self::lemma_from_code_of_code_u0(value),
            OandaInstrumentName::Usb30YUsd => Self::lemma_from_code_of_code_u0(value),
            OandaInstrumentName::UsdCad => Self::lemma_from_code_of_code_u1(value),
            OandaInstrumentName::UsdChf => Self::lemma_from_code_of_code_u1(value),
            OandaInstrumentName::UsdCnh => Self::lemma_from_code_of_code_u1(value),
            OandaInstrumentName::UsdCzk => Self::lemma_from_code_of_code_u1(value),
            OandaInstrumentName::UsdDkk => Self::lemma_from_code_of_code_u1(value),
            OandaInstrumentName::UsdHkd => Self::lemma_from_code_of_code_u1(value),
            OandaInstrumentName::UsdHuf => Self::lemma_from_code_of_code_u1(value),
            OandaInstrumentName::UsdJpy => Self::lemma_from_code_of_code_u1(value),
            OandaInstrumentName::UsdMxn => Self::lemma_from_code_of_code_u2(value),
            OandaInstrumentName::UsdNok => Self::lemma_from_code_of_code_u2(value),
            OandaInstrumentName::UsdPln => Self::lemma_from_code_of_code_u2(value),
            OandaInstrumentName::UsdSek => Self::lemma_from_code_of_code_u2(value),
            OandaInstrumentName::UsdSgd => Self::lemma_from_code_of_code_u2(value),
            OandaInstrumentName::UsdThb => Self::lemma_from_code_of_code_u2(value),
            OandaInstrumentName::UsdTry => Self::lemma_from_code_of_code_u2(value),
            OandaInstrumentName::UsdZar => Self::lemma_from_code_of_code_u2(value),
            OandaInstrumentName::WheatUsd => Self::lemma_from_code_of_code_w0(value),
            OandaInstrumentName::WticoUsd => Self::lemma_from_code_of_code_w0(value),
            OandaInstrumentName::XagAud => Self::lemma_from_code_of_code_x0(value),
            OandaInstrumentName::XagCad => Self::lemma_from_code_of_code_x0(value),
            OandaInstrumentName::XagChf => Self::lemma_from_code_of_code_x0(value),
            OandaInstrumentName::XagEur => Self::lemma_from_code_of_code_x0(value),
            OandaInstrumentName::XagGbp => Self::lemma_from_code_of_code_x0(value),
            OandaInstrumentName::XagHkd => Self::lemma_from_code_of_code_x0(value),
            OandaInstrumentName::XagJpy => Self::lemma_from_code_of_code_x0(value),
            OandaInstrumentName::XagNzd => Self::lemma_from_code_of_code_x0(value),
            OandaInstrumentName::XagSgd => Self::lemma_from_code_of_code_x1(value),
            OandaInstrumentName::XagUsd => Self::lemma_from_code_of_code_x1(value),
            OandaInstrumentName::XauAud => Self::lemma_from_code_of_code_x1(value),
            OandaInstrumentName::XauCad => Self::lemma_from_code_of_code_x1(value),
            OandaInstrumentName::XauChf => Self::lemma_from_code_of_code_x1(value),
            OandaInstrumentName::XauEur => Self::lemma_from_code_of_code_x1(value),
            OandaInstrumentName::XauGbp => Self::lemma_from_code_of_code_x1(value),
            OandaInstrumentName::XauHkd => Self::lemma_from_code_of_code_x1(value),
            OandaInstrumentName::XauJpy => Self::lemma_from_code_of_code_x2(value),
            OandaInstrumentName::XauNzd => Self::lemma_from_code_of_code_x2(value),
            OandaInstrumentName::XauSgd => Self::lemma_from_code_of_code_x2(value),
            OandaInstrumentName::XauUsd => Self::lemma_from_code_of_code_x2(value),
            OandaInstrumentName::XauXag => Self::lemma_from_code_of_code_x2(value),
            OandaInstrumentName::XcuUsd => Self::lemma_from_code_of_code_x2(value),
            OandaInstrumentName::XpdUsd => Self::lemma_from_code_of_code_x2(value),
            OandaInstrumentName::XptUsd => Self::lemma_from_code_of_code_x2(value),
            OandaInstrumentName::ZarJpy => Self::lemma_from_code_of_code_z0(value),
        }
    }

    #[verifier::spinoff_prover]
    proof fn lemma_from_code_of_code_a0(value: Self)
        requires
            value == OandaInstrumentName::Au200Aud || value == OandaInstrumentName::AudCad || value == OandaInstrumentName::AudChf || value == OandaInstrumentName::AudHkd || value == OandaInstrumentName::AudJpy || value == OandaInstrumentName::AudNzd || value == OandaInstrumentName::AudSgd || value == OandaInstrumentName::AudUsd,
        ensures
            Self::spec_from_code(value.spec_code()) == Some(value),
    {
        match value {
            OandaInstrumentName::Au200Aud => {},
            OandaInstrumentName::AudCad => {},
            OandaInstrumentName::AudChf => {},
            OandaInstrumentName::AudHkd => {},
            OandaInstrumentName::AudJpy => {},
            OandaInstrumentName::AudNzd => {},
            OandaInstrumentName::AudSgd => {},
            OandaInstrumentName::AudUsd => {},
            _ => {},
        }
    }

    #[verifier::spinoff_prover]
    proof fn lemma_from_code_of_code_b0(value: Self)
        requires
            value == OandaInstrumentName::BcoUsd,
        ensures
            Self::spec_from_code(value.spec_code()) == Some(value),
    {
        match value {
            OandaInstrumentName::BcoUsd => {},
            _ => {},
        }
    }

    #[verifier::spinoff_prover]
    proof fn lemma_from_code_of_code_c0(value: Self)
        requires
            value == OandaInstrumentName::CadChf || value == OandaInstrumentName::CadHkd || value == OandaInstrumentName::CadJpy || value == OandaInstrumentName::CadSgd || value == OandaInstrumentName::Ch20Chf || value == OandaInstrumentName::ChfHkd || value == OandaInstrumentName::ChfJpy || value == OandaInstrumentName::ChfZar,
        ensures
            Self::spec_from_code(value.spec_code()) == Some(value),
    {
        match value {
            OandaInstrumentName::CadChf => {},
            OandaInstrumentName::CadHkd => {},
            OandaInstrumentName::CadJpy => {},
            OandaInstrumentName::CadSgd => {},
            OandaInstrumentName::Ch20Chf => {},
            OandaInstrumentName::ChfHkd => {},
            OandaInstrumentName::ChfJpy => {},
            OandaInstrumentName::ChfZar => {},
            _ => {},
        }
    }

    #[verifier::spinoff_prover]
    proof fn lemma_from_code_of_code_c1(value: Self)
        requires
            value == OandaInstrumentName::ChinahHkd || value == OandaInstrumentName::Cn50Usd || value == OandaInstrumentName::CornUsd,
        ensures
            Self::spec_from_code(value.spec_code()) == Some(value),
    {
        match value {
            OandaInstrumentName::ChinahHkd => {},
            OandaInstrumentName::Cn50Usd => {},
            OandaInstrumentName::CornUsd => {},
            _ => {},
        }
    }

    #[verifier::spinoff_prover]
    proof fn lemma_from_code_of_code_d0(value: Self)
        requires
            value == OandaInstrumentName::De10YbEur || value == OandaInstrumentName::De30Eur,
        ensures
            Self::spec_from_code(value.spec_code()) == Some(value),
    {
        match value {
            OandaInstrumentName::De10YbEur => {},
            OandaInstrumentName::De30Eur => {},
            _ => {},
        }
    }

    #[verifier::spinoff_prover]
    proof fn lemma_from_code_of_code_e0(value: Self)
        requires
            value == OandaInstrumentName::EspixEur || value == OandaInstrumentName::Eu50Eur || value == OandaInstrumentName::EurAud || value == OandaInstrumentName::EurCad || value == OandaInstrumentName::EurChf || value == OandaInstrumentName::EurCzk || value == OandaInstrumentName::EurDkk || value == OandaInstrumentName::EurGbp,
        ensures
            Self::spec_from_code(value.spec_code()) == Some(value),
    {
        match value {
            OandaInstrumentName::EspixEur => {},
            OandaInstrumentName::Eu50Eur => {},
            OandaInstrumentName::EurAud => {},
            OandaInstrumentName::EurCad => {},
            OandaInstrumentName::EurChf => {},
            OandaInstrumentName::EurCzk => {},
            OandaInstrumentName::EurDkk => {},
            OandaInstrumentName::EurGbp => {},
            _ => {},
        }
    }

    #[verifier::spinoff_prover]
    proof fn lemma_from_code_of_code_e1(value: Self)
        requires
            value == OandaInstrumentName::EurHkd || value == OandaInstrumentName::EurHuf || value == OandaInstrumentName::EurJpy || value == OandaInstrumentName::EurNok || value == OandaInstrumentName::EurNzd || value == OandaInstrumentName::EurPln || value == OandaInstrumentName::EurSek || value == OandaInstrumentName::EurSgd,
        ensures
            Self::spec_from_code(value.spec_code()) == Some(value),
    {
        match value {
            OandaInstrumentName::EurHkd => {},
            OandaInstrumentName::EurHuf => {},
            OandaInstrumentName::EurJpy => {},
            OandaInstrumentName::EurNok => {},
            OandaInstrumentName::EurNzd => {},
            OandaInstrumentName::EurPln => {},
            OandaInstrumentName::EurSek => {},
            OandaInstrumentName::EurSgd => {},
            _ => {},
        }
    }

    #[verifier::spinoff_prover]
    proof fn lemma_from_code_of_code_e2(value: Self)
        requires
            value == OandaInstrumentName::EurTry || value == OandaInstrumentName::EurUsd || value == OandaInstrumentName::EurZar,
        ensures
            Self::spec_from_code(value.spec_code()) == Some(value),
    {
        match value {
            OandaInstrumentName::EurTry => {},
            OandaInstrumentName::EurUsd => {},
            OandaInstrumentName::EurZar => {},
            _ => {},
        }
    }

    #[verifier::spinoff_prover]
    proof fn lemma_from_code_of_code_f0(value: Self)
        requires
            value == OandaInstrumentName::Fr40Eur,
        ensures
            Self::spec_from_code(value.spec_code()) == Some(value),
    {
        match value {
            OandaInstrumentName::Fr40Eur => {},
            _ => {},
        }
    }

    #[verifier::spinoff_prover]
    proof fn lemma_from_code_of_code_g0(value: Self)
        requires
            value == OandaInstrumentName::GbpAud || value == OandaInstrumentName::GbpCad || value == OandaInstrumentName::GbpChf || value == OandaInstrumentName::GbpHkd || value == OandaInstrumentName::GbpJpy || value == OandaInstrumentName::GbpNzd || value == OandaInstrumentName::GbpPln || value == OandaInstrumentName::GbpSgd,
        ensures
            Self::spec_from_code(value.spec_code()) == Some(value),
    {
        match value {
            OandaInstrumentName::GbpAud => {},
            OandaInstrumentName::GbpCad => {},
            OandaInstrumentName::GbpChf => {},
            OandaInstrumentName::GbpHkd => {},
            OandaInstrumentName::GbpJpy => {},
            OandaInstrumentName::GbpNzd => {},
            OandaInstrumentName::GbpPln => {},
            OandaInstrumentName::GbpSgd => {},
            _ => {},
        }
    }

    #[verifier::spinoff_prover]
    proof fn lemma_from_code_of_code_g1(value: Self)
        requires
            value == OandaInstrumentName::GbpUsd || value == OandaInstrumentName::GbpZar,
        ensures
            Self::spec_from_code(value.spec_code()) == Some(value),
    {
        match value {
            OandaInstrumentName::GbpUsd => {},
            OandaInstrumentName::GbpZar => {},
            _ => {},
        }
    }

    #[verifier::spinoff_prover]
    proof fn lemma_from_code_of_code_h0(value: Self)
        requires
            value == OandaInstrumentName::Hk33Hkd || value == OandaInstrumentName::HkdJpy,
        ensures
            Self::spec_from_code(value.spec_code()) == Some(value),
    {
        match value {
            OandaInstrumentName::Hk33Hkd => {},
            OandaInstrumentName::HkdJpy => {},
            _ => {},
        }
    }

    #[verifier::spinoff_prover]
    proof fn lemma_from_code_of_code_j0(value: Self)
        requires
            value == OandaInstrumentName::Jp225Usd || value == OandaInstrumentName::Jp225YJpy,
        ensures
            Self::spec_from_code(value.spec_code()) == Some(value),
    {
        match value {
            OandaInstrumentName::Jp225Usd => {},
            OandaInstrumentName::Jp225YJpy => {},
            _ => {},
        }
    }

    #[verifier::spinoff_prover]
    proof fn lemma_from_code_of_code_n0(value: Self)
        requires
            value == OandaInstrumentName::Nas100Usd || value == OandaInstrumentName::NatgasUsd || value == OandaInstrumentName::Nl25Eur || value == OandaInstrumentName::NzdCad || value == OandaInstrumentName::NzdChf || value == OandaInstrumentName::NzdHkd || value == OandaInstrumentName::NzdJpy || value == OandaInstrumentName::NzdSgd,
        ensures
            Self::spec_from_code(value.spec_code()) == Some(value),
    {
        match value {
            OandaInstrumentName::Nas100Usd => {},
            OandaInstrumentName::NatgasUsd => {},
            OandaInstrumentName::Nl25Eur => {},
            OandaInstrumentName::NzdCad => {},
            OandaInstrumentName::NzdChf => {},
            OandaInstrumentName::NzdHkd => {},
            OandaInstrumentName::NzdJpy => {},
            OandaInstrumentName::NzdSgd => {},
            _ => {},
        }
    }

    #[verifier::spinoff_prover]
    proof fn lemma_from_code_of_code_n1(value: Self)
        requires
            value == OandaInstrumentName::NzdUsd,
        ensures
            Self::spec_from_code(value.spec_code()) == Some(value),
    {
        match value {
            OandaInstrumentName::NzdUsd => {},
            _ => {},
        }
    }

    #[verifier::spinoff_prover]
    proof fn lemma_from_code_of_code_s0(value: Self)
        requires
            value == OandaInstrumentName::Sg30Sgd || value == OandaInstrumentName::SgdChf || value == OandaInstrumentName::SgdJpy || value == OandaInstrumentName::SoybnUsd || value == OandaInstrumentName::Spx500Usd || value == OandaInstrumentName::SugarUsd,
        ensures
            Self::spec_from_code(value.spec_code()) == Some(value),
    {
        match value {
            OandaInstrumentName::Sg30Sgd => {},
            OandaInstrumentName::SgdChf => {},
            OandaInstrumentName::SgdJpy => {},
            OandaInstrumentName::SoybnUsd => {},
            OandaInstrumentName::Spx500Usd => {},
            OandaInstrumentName::SugarUsd => {},
            _ => {},
        }
    }

    #[verifier::spinoff_prover]
    proof fn lemma_from_code_of_code_t0(value: Self)
        requires
            value == OandaInstrumentName::TryJpy,
        ensures
            Self::spec_from_code(value.spec_code()) == Some(value),
    {
        match value {
            OandaInstrumentName::TryJpy => {},
            _ => {},
        }
    }

    #[verifier::spinoff_prover]
    proof fn lemma_from_code_of_code_u0(value: Self)
        requires
            value == OandaInstrumentName::Uk100Gbp || value == OandaInstrumentName::Uk10YbGbp || value == OandaInstrumentName::Us2000Usd || value == OandaInstrumentName::Us30Usd || value == OandaInstrumentName::Usb02YUsd || value == OandaInstrumentName::Usb05YUsd || value == OandaInstrumentName::Usb10YUsd || value == OandaInstrumentName::Usb30YUsd,
        ensures
            Self::spec_from_code(value.spec_code()) == Some(value),
    {
        match value {
            OandaInstrumentName::Uk100Gbp => {},
            OandaInstrumentName::Uk10YbGbp => {},
            OandaInstrumentName::Us2000Usd => {},
            OandaInstrumentName::Us30Usd => {},
            OandaInstrumentName::Usb02YUsd => {},
            OandaInstrumentName::Usb05YUsd => {},
            OandaInstrumentName::Usb10YUsd => {},
            OandaInstrumentName::Usb30YUsd => {},
            _ => {},
        }
    }

    #[verifier::spinoff_prover]
    proof fn lemma_from_code_of_code_u1(value: Self)
        requires
            value == OandaInstrumentName::UsdCad || value == OandaInstrumentName::UsdChf || value == OandaInstrumentName::UsdCnh || value == OandaInstrumentName::UsdCzk || value == OandaInstrumentName::UsdDkk || value == OandaInstrumentName::UsdHkd || value == OandaInstrumentName::UsdHuf || value == OandaInstrumentName::UsdJpy,
        ensures
            Self::spec_from_code(value.spec_code()) == Some(value),
    {
        match value {
            OandaInstrumentName::UsdCad => {},
            OandaInstrumentName::UsdChf => {},
            OandaInstrumentName::UsdCnh => {},
            OandaInstrumentName::UsdCzk => {},
            OandaInstrumentName::UsdDkk => {},
            OandaInstrumentName::UsdHkd => {},
            OandaInstrumentName::UsdHuf => {},
            OandaInstrumentName::UsdJpy => {},
            _ => {},
        }
    }

    #[verifier::spinoff_prover]
    proof fn lemma_from_code_of_code_u2(value: Self)
        requires
            value == OandaInstrumentName::UsdMxn || value == OandaInstrumentName::UsdNok || value == OandaInstrumentName::UsdPln || value == OandaInstrumentName::UsdSek || value == OandaInstrumentName::UsdSgd || value == OandaInstrumentName::UsdThb || value == OandaInstrumentName::UsdTry || value == OandaInstrumentName::UsdZar,
        ensures
            Self::spec_from_code(value.spec_code()) == Some(value),
    {
        match value {
            OandaInstrumentName::UsdMxn => {},
            OandaInstrumentName::UsdNok => {},
            OandaInstrumentName::UsdPln => {},
            OandaInstrumentName::UsdSek => {},
            OandaInstrumentName::UsdSgd => {},
            OandaInstrumentName::UsdThb => {},
            OandaInstrumentName::UsdTry => {},
            OandaInstrumentName::UsdZar => {},
            _ => {},
        }
    }

    #[verifier::spinoff_prover]
    proof fn lemma_from_code_of_code_w0(value: Self)
        requires
            value == OandaInstrumentName::WheatUsd || value == OandaInstrumentName::WticoUsd,
        ensures
            Self::spec_from_code(value.spec_code()) == Some(value),
    {
        match value {
            OandaInstrumentName::WheatUsd => {},
            OandaInstrumentName::WticoUsd => {},
            _ => {},
        }
    }

    #[verifier::spinoff_prover]
    proof fn lemma_from_code_of_code_x0(value: Self)
        requires
            value == OandaInstrumentName::XagAud || value == OandaInstrumentName::XagCad || value == OandaInstrumentName::XagChf || value == OandaInstrumentName::XagEur || value == OandaInstrumentName::XagGbp || value == OandaInstrumentName::XagHkd || value == OandaInstrumentName::XagJpy || value == OandaInstrumentName::XagNzd,
        ensures
            Self::spec_from_code(value.spec_code()) == Some(value),
    {
        match value {
            OandaInstrumentName::XagAud => {},
            OandaInstrumentName::XagCad => {},
            OandaInstrumentName::XagChf => {},
            OandaInstrumentName::XagEur => {},
            OandaInstrumentName::XagGbp => {},
            OandaInstrumentName::XagHkd => {},
            OandaInstrumentName::XagJpy => {},
            OandaInstrumentName::XagNzd => {},
            _ => {},
        }
    }

    #[verifier::spinoff_prover]
    proof fn lemma_from_code_of_code_x1(value: Self)
        requires
            value == OandaInstrumentName::XagSgd || value == OandaInstrumentName::XagUsd || value == OandaInstrumentName::XauAud || value == OandaInstrumentName::XauCad || value == OandaInstrumentName::XauChf || value == OandaInstrumentName::XauEur || value == OandaInstrumentName::XauGbp || value == OandaInstrumentName::XauHkd,
        ensures
            Self::spec_from_code(value.spec_code()) == Some(value),
    {
        match value {
            OandaInstrumentName::XagSgd => {},
            OandaInstrumentName::XagUsd => {},
            OandaInstrumentName::XauAud => {},
            OandaInstrumentName::XauCad => {},
            OandaInstrumentName::XauChf => {},
            OandaInstrumentName::XauEur => {},
            OandaInstrumentName::XauGbp => {},
            OandaInstrumentName::XauHkd => {},
            _ => {},
        }
    }

    #[verifier::spinoff_prover]
    proof fn lemma_from_code_of_code_x2(value: Self)
        requires
            value == OandaInstrumentName::XauJpy || value == OandaInstrumentName::XauNzd || value == OandaInstrumentName::XauSgd || value == OandaInstrumentName::XauUsd || value == OandaInstrumentName::XauXag || value == OandaInstrumentName::XcuUsd || value == OandaInstrumentName::XpdUsd || value == OandaInstrumentName::XptUsd,
        ensures
            Self::spec_from_code(value.spec_code()) == Some(value),
    {
        match value {
            OandaInstrumentName::XauJpy => {},
            OandaInstrumentName::XauNzd => {},
            OandaInstrumentName::XauSgd => {},
            OandaInstrumentName::XauUsd => {},
            OandaInstrumentName::XauXag => {},
            OandaInstrumentName::XcuUsd => {},
            OandaInstrumentName::XpdUsd => {},
            OandaInstrumentName::XptUsd => {},
            _ => {},
        }
    }

    #[verifier::spinoff_prover]
    proof fn lemma_from_code_of_code_z0(value: Self)
        requires
            value == OandaInstrumentName::ZarJpy,
        ensures
            Self::spec_from_code(value.spec_code()) == Some(value),
    {
        match value {
            OandaInstrumentName::ZarJpy => {},
            _ => {},
        }
    }

    /// Two instrument names with the same wire code are the same instrument name.
    pub proof fn lemma_code_injective(a: Self, b: Self)
        requires
            a.spec_code() == b.spec_code(),
        ensures
            a == b,
    {
        Self::lemma_from_code_of_code(a);
        Self::lemma_from_code_of_code(b);
    }

    /// A decoded instrument name has the decoded code as its wire code.
    pub proof fn lemma_code_of_from_code(code: Seq<char>)
        requires
            Self::spec_from_code(code) is Some,
        ensures
            Self::spec_from_code(code).unwrap().spec_code() == code,
    {
    }
}

/// The type of the Instrument
#[derive(Clone, Copy, Debug, PartialEq, Eq, Structural, PartialOrd, Ord, Hash)]
pub enum OandaInstrumentType {
    /// A currency pair.
    Currency,
    /// A contract for difference.
    Cfd,
    /// A precious metal.
    Metal,
}

impl OandaInstrumentType {
    /// The number of variants.
    pub const COUNT: usize = 3;

    /// The wire code of this instrument type, as characters.
    pub open spec fn spec_code(self) -> Seq<char> {
        match self {
            OandaInstrumentType::Currency => seq!['C', 'U', 'R', 'R', 'E', 'N', 'C', 'Y'],
            OandaInstrumentType::Cfd => seq!['C', 'F', 'D'],
            OandaInstrumentType::Metal => seq!['M', 'E', 'T', 'A', 'L'],
        }
    }

    /// The instrument type whose wire code is `code`, if there is one.
    pub open spec fn spec_from_code(code: Seq<char>) -> Option<Self> {
        if code.len() == 0 {
            None
        } else if code[0] == 'C' {
            Self::spec_from_code_c(code)
        } else if code[0] == 'M' {
            Self::spec_from_code_m(code)
        } else {
            None
        }
    }

    /// Decodes the wire codes that begin with `C`.
    pub open spec fn spec_from_code_c(code: Seq<char>) -> Option<Self> {
        if code == seq!['C', 'U', 'R', 'R', 'E', 'N', 'C', 'Y'] {
            Some(OandaInstrumentType::Currency)
        } else if code == seq!['C', 'F', 'D'] {
            Some(OandaInstrumentType::Cfd)
        } else {
            None
        }
    }

    /// Decodes the wire codes that begin with `M`.
    pub open spec fn spec_from_code_m(code: Seq<char>) -> Option<Self> {
        if code == seq!['M', 'E', 'T', 'A', 'L'] {
            Some(OandaInstrumentType::Metal)
        } else {
            None
        }
    }

    /// The instrument type at position `index` in declaration order.
    pub open spec fn spec_at(index: int) -> Option<Self> {
        if index == 0 {
            Some(OandaInstrumentType::Currency)
        } else if index == 1 {
            Some(OandaInstrumentType::Cfd)
        } else if index == 2 {
            Some(OandaInstrumentType::Metal)
        } else {
            None
        }
    }

    /// The position of this instrument type in declaration order.
    pub open spec fn spec_index(self) -> int {
        match self {
            OandaInstrumentType::Currency => 0,
            OandaInstrumentType::Cfd => 1,
            OandaInstrumentType::Metal => 2,
        }
    }

    /// Returns the wire code of this instrument type.
    pub fn code(&self) -> (code: &'static str)
        ensures
            code@ == self.spec_code(),
    {
        match self {
            OandaInstrumentType::Currency => {
                proof {
                    reveal_strlit("CURRENCY");
                }
                "CURRENCY"
            },
            OandaInstrumentType::Cfd => {
                proof {
                    reveal_strlit("CFD");
                }
                "CFD"
            },
            OandaInstrumentType::Metal => {
                proof {
                    reveal_strlit("METAL");
                }
                "METAL"
            },
        }
    }

    /// Returns the instrument type at position `index` in declaration order.
    pub fn at(index: usize) -> (found: Option<Self>)
        ensures
            found == Self::spec_at(index as int),
    {
        if index == 0 {
            Some(OandaInstrumentType::Currency)
        } else if index == 1 {
            Some(OandaInstrumentType::Cfd)
        } else if index == 2 {
            Some(OandaInstrumentType::Metal)
        } else {
            None
        }
    }

    /// Returns the instrument type whose wire code is `code`, or `None` when no
    /// instrument type has that code.
    pub fn from_code(code: &str) -> (found: Option<Self>)
        ensures
            found == Self::spec_from_code(code@),
    {
        let mut index: usize = 0;
        while index < Self::COUNT
            invariant
                index <= Self::COUNT,
                forall|j: int|
                    0 <= j < index ==> ((#[trigger] Self::spec_at(j)) matches Some(v)
                        && v.spec_code() != code@),
            decreases Self::COUNT - index,
        {
            let candidate = Self::at(index);
            proof {
                Self::lemma_at_is_some(index as int);
            }
            let candidate = candidate.unwrap();
            if str_equals(candidate.code(), code) {
                proof {
                    Self::lemma_from_code_of_code(candidate);
                }
                return Some(candidate);
            }
            index += 1;
        }
        proof {
            if let Some(v) = Self::spec_from_code(code@) {
                Self::lemma_code_of_from_code(code@);
                Self::lemma_index_of(v);
                assert(Self::spec_at(v.spec_index()) == Some(v));
            }
        }
        None
    }

    /// Every position below `COUNT` holds a variant.
    pub proof fn lemma_at_is_some(index: int)
        requires
            0 <= index < Self::COUNT,
        ensures
            Self::spec_at(index) is Some,
    {
    }

    /// Every variant sits at its own position below `COUNT`.
    pub proof fn lemma_index_of(value: Self)
        ensures
            0 <= value.spec_index() < Self::COUNT,
            Self::spec_at(value.spec_index()) == Some(value),
    {
    }

    /// Decoding the wire code of a instrument type gives back that instrument type.
    pub proof fn lemma_from_code_of_code(value: Self)
        ensures
            Self::spec_from_code(value.spec_code()) == Some(value),
    {
        match value {
            OandaInstrumentType::Currency => Self::lemma_from_code_of_code_c0(value),
            OandaInstrumentType::Cfd => Self::lemma_from_code_of_code_c0(value),
            OandaInstrumentType::Metal => Self::lemma_from_code_of_code_m0(value),
        }
    }

    #[verifier::spinoff_prover]
    proof fn lemma_from_code_of_code_c0(value: Self)
        requires
            value == OandaInstrumentType::Currency || value == OandaInstrumentType::Cfd,
        ensures
            Self::spec_from_code(value.spec_code()) == Some(value),
    {
        match value {
            OandaInstrumentType::Currency => {},
            OandaInstrumentType::Cfd => {},
            _ => {},
        }
    }

    #[verifier::spinoff_prover]
    proof fn lemma_from_code_of_code_m0(value: Self)
        requires
            value == OandaInstrumentType::Metal,
        ensures
            Self::spec_from_code(value.spec_code()) == Some(value),
    {
        match value {
            OandaInstrumentType::Metal => {},
            _ => {},
        }
    }

    /// Two instrument types with the same wire code are the same instrument type.
    pub proof fn lemma_code_injective(a: Self, b: Self)
        requires
            a.spec_code() == b.spec_code(),
        ensures
            a == b,
    {
        Self::lemma_from_code_of_code(a);
        Self::lemma_from_code_of_code(b);
    }

    /// A decoded instrument type has the decoded code as its wire code.
    pub proof fn lemma_code_of_from_code(code: Seq<char>)
        requires
            Self::spec_from_code(code) is Some,
        ensures
            Self::spec_from_code(code).unwrap().spec_code() == code,
    {
    }
}

/// The behavior of the account regarding guaranteed stop loss orders for an instrument.
#[derive(Clone, Copy, Debug, PartialEq, Eq, Structural, PartialOrd, Ord, Hash)]
pub enum OandaGuaranteedStopLossOrderModeForInstrument {
    /// Guaranteed stop loss orders are not allowed.
    Disabled,
    /// Guaranteed stop loss orders may be attached.
    Allowed,
    /// Every trade must have a guaranteed stop loss order.
    Required,
}

impl OandaGuaranteedStopLossOrderModeForInstrument {
    /// The number of variants.
    pub const COUNT: usize = 3;

    /// The wire code of this guaranteed stop loss order mode, as characters.
    pub open spec fn spec_code(self) -> Seq<char> {
        match self {
            OandaGuaranteedStopLossOrderModeForInstrument::Disabled => seq!['D', 'I', 'S', 'A', 'B', 'L', 'E', 'D'],
            OandaGuaranteedStopLossOrderModeForInstrument::Allowed => seq!['A', 'L', 'L', 'O', 'W', 'E', 'D'],
            OandaGuaranteedStopLossOrderModeForInstrument::Required => seq!['R', 'E', 'Q', 'U', 'I', 'R', 'E', 'D'],
        }
    }

    /// The guaranteed stop loss order mode whose wire code is `code`, if there is one.
    pub open spec fn spec_from_code(code: Seq<char>) -> Option<Self> {
        if code.len() == 0 {
            None
        } else if code[0] == 'D' {
            Self::spec_from_code_d(code)
        } else if code[0] == 'A' {
            Self::spec_from_code_a(code)
        } else if code[0] == 'R' {
            Self::spec_from_code_r(code)
        } else {
            None
        }
    }

    /// Decodes the wire codes that begin with `D`.
    pub open spec fn spec_from_code_d(code: Seq<char>) -> Option<Self> {
        if code == seq!['D', 'I', 'S', 'A', 'B', 'L', 'E', 'D'] {
            Some(OandaGuaranteedStopLossOrderModeForInstrument::Disabled)
        } else {
            None
        }
    }

    /// Decodes the wire codes that begin with `A`.
    pub open spec fn spec_from_code_a(code: Seq<char>) -> Option<Self> {
        if code == seq!['A', 'L', 'L', 'O', 'W', 'E', 'D'] {
            Some(OandaGuaranteedStopLossOrderModeForInstrument::Allowed)
        } else {
            None
        }
    }

    /// Decodes the wire codes that begin with `R`.
    pub open spec fn spec_from_code_r(code: Seq<char>) -> Option<Self> {
        if code == seq!['R', 'E', 'Q', 'U', 'I', 'R', 'E', 'D'] {
            Some(OandaGuaranteedStopLossOrderModeForInstrument::Required)
        } else {
            None
        }
    }

    /// The guaranteed stop loss order mode at position `index` in declaration order.
    pub open spec fn spec_at(index: int) -> Option<Self> {
        if index == 0 {
            Some(OandaGuaranteedStopLossOrderModeForInstrument::Disabled)
        } else if index == 1 {
            Some(OandaGuaranteedStopLossOrderModeForInstrument::Allowed)
        } else if index == 2 {
            Some(OandaGuaranteedStopLossOrderModeForInstrument::Required)
        } else {
            None
        }
    }

    /// The position of this guaranteed stop loss order mode in declaration order.
    pub open spec fn spec_index(self) -> int {
        match self {
            OandaGuaranteedStopLossOrderModeForInstrument::Disabled => 0,
            OandaGuaranteedStopLossOrderModeForInstrument::Allowed => 1,
            OandaGuaranteedStopLossOrderModeForInstrument::Required => 2,
        }
    }

    /// Returns the wire code of this guaranteed stop loss order mode.
    pub fn code(&self) -> (code: &'static str)
        ensures
            code@ == self.spec_code(),
    {
        match self {
            OandaGuaranteedStopLossOrderModeForInstrument::Disabled => {
                proof {
                    reveal_strlit("DISABLED");
                }
                "DISABLED"
            },
            OandaGuaranteedStopLossOrderModeForInstrument::Allowed => {
                proof {
                    reveal_strlit("ALLOWED");
                }
                "ALLOWED"
            },
            OandaGuaranteedStopLossOrderModeForInstrument::Required => {
                proof {
                    reveal_strlit("REQUIRED");
                }
                "REQUIRED"
            },
        }
    }

    /// Returns the guaranteed stop loss order mode at position `index` in declaration order.
    pub fn at(index: usize) -> (found: Option<Self>)
        ensures
            found == Self::spec_at(index as int),
    {
        if index == 0 {
            Some(OandaGuaranteedStopLossOrderModeForInstrument::Disabled)
        } else if index == 1 {
            Some(OandaGuaranteedStopLossOrderModeForInstrument::Allowed)
        } else if index == 2 {
            Some(OandaGuaranteedStopLossOrderModeForInstrument::Required)
        } else {
            None
        }
    }

    /// Returns the guaranteed stop loss order mode whose wire code is `code`, or `None` when no
    /// guaranteed stop loss order mode has that code.
    pub fn from_code(code: &str) -> (found: Option<Self>)
        ensures
            found == Self::spec_from_code(code@),
    {
        let mut index: usize = 0;
        while index < Self::COUNT
            invariant
                index <= Self::COUNT,
                forall|j: int|
                    0 <= j < index ==> ((#[trigger] Self::spec_at(j)) matches Some(v)
                        && v.spec_code() != code@),
            decreases Self::COUNT - index,
        {
            let candidate = Self::at(index);
            proof {
                Self::lemma_at_is_some(index as int);
            }
            let candidate = candidate.unwrap();
            if str_equals(candidate.code(), code) {
                proof {
                    Self::lemma_from_code_of_code(candidate);
                }
                return Some(candidate);
            }
            index += 1;
        }
        proof {
            if let Some(v) = Self::spec_from_code(code@) {
                Self::lemma_code_of_from_code(code@);
                Self::lemma_index_of(v);
                assert(Self::spec_at(v.spec_index()) == Some(v));
            }
        }
        None
    }

    /// Every position below `COUNT` holds a variant.
    pub proof fn lemma_at_is_some(index: int)
        requires
            0 <= index < Self::COUNT,
        ensures
            Self::spec_at(index) is Some,
    {
    }

    /// Every variant sits at its own position below `COUNT`.
    pub proof fn lemma_index_of(value: Self)
        ensures
            0 <= value.spec_index() < Self::COUNT,
            Self::spec_at(value.spec_index()) == Some(value),
    {
    }

    /// Decoding the wire code of a guaranteed stop loss order mode gives back that guaranteed stop loss order mode.
    pub proof fn lemma_from_code_of_code(value: Self)
        ensures
            Self::spec_from_code(value.spec_code()) == Some(value),
    {
        match value {
            OandaGuaranteedStopLossOrderModeForInstrument::Disabled => Self::lemma_from_code_of_code_d0(value),
            OandaGuaranteedStopLossOrderModeForInstrument::Allowed => Self::lemma_from_code_of_code_a0(value),
            OandaGuaranteedStopLossOrderModeForInstrument::Required => Self::lemma_from_code_of_code_r0(value),
        }
    }

    #[verifier::spinoff_prover]
    proof fn lemma_from_code_of_code_d0(value: Self)
        requires
            value == OandaGuaranteedStopLossOrderModeForInstrument::Disabled,
        ensures
            Self::spec_from_code(value.spec_code()) == Some(value),
    {
        match value {
            OandaGuaranteedStopLossOrderModeForInstrument::Disabled => {},
            _ => {},
        }
    }

    #[verifier::spinoff_prover]
    proof fn lemma_from_code_of_code_a0(value: Self)
        requires
            value == OandaGuaranteedStopLossOrderModeForInstrument::Allowed,
        ensures
            Self::spec_from_code(value.spec_code()) == Some(value),
    {
        match value {
            OandaGuaranteedStopLossOrderModeForInstrument::Allowed => {},
            _ => {},
        }
    }

    #[verifier::spinoff_prover]
    proof fn lemma_from_code_of_code_r0(value: Self)
        requires
            value == OandaGuaranteedStopLossOrderModeForInstrument::Required,
        ensures
            Self::spec_from_code(value.spec_code()) == Some(value),
    {
        match value {
            OandaGuaranteedStopLossOrderModeForInstrument::Required => {},
            _ => {},
        }
    }

    /// Two guaranteed stop loss order modes with the same wire code are the same guaranteed stop loss order mode.
    pub proof fn lemma_code_injective(a: Self, b: Self)
        requires
            a.spec_code() == b.spec_code(),
        ensures
            a == b,
    {
        Self::lemma_from_code_of_code(a);
        Self::lemma_from_code_of_code(b);
    }

    /// A decoded guaranteed stop loss order mode has the decoded code as its wire code.
    pub proof fn lemma_code_of_from_code(code: Seq<char>)
        requires
            Self::spec_from_code(code) is Some,
        ensures
            Self::spec_from_code(code).unwrap().spec_code() == code,
    {
    }
}

/// A day of the week.
#[derive(Clone, Copy, Debug, PartialEq, Eq, Structural, PartialOrd, Ord, Hash)]
pub enum OandaDayOfWeek {
    /// Sunday.
    Sunday,
    /// Monday.
    Monday,
    /// Tuesday.
    Tuesday,
    /// Wednesday.
    Wednesday,
    /// Thursday.
    Thursday,
    /// Friday.
    Friday,
    /// Saturday.
    Saturday,
}

impl OandaDayOfWeek {
    /// The number of variants.
    pub const COUNT: usize = 7;

    /// The wire code of this day of the week, as characters.
    pub open spec fn spec_code(self) -> Seq<char> {
        match self {
            OandaDayOfWeek::Sunday => seq!['S', 'U', 'N', 'D', 'A', 'Y'],
            OandaDayOfWeek::Monday => seq!['M', 'O', 'N', 'D', 'A', 'Y'],
            OandaDayOfWeek::Tuesday => seq!['T', 'U', 'E', 'S', 'D', 'A', 'Y'],
            OandaDayOfWeek::Wednesday => seq!['W', 'E', 'D', 'N', 'E', 'S', 'D', 'A', 'Y'],
            OandaDayOfWeek::Thursday => seq!['T', 'H', 'U', 'R', 'S', 'D', 'A', 'Y'],
            OandaDayOfWeek::Friday => seq!['F', 'R', 'I', 'D', 'A', 'Y'],
            OandaDayOfWeek::Saturday => seq!['S', 'A', 'T', 'U', 'R', 'D', 'A', 'Y'],
        }
    }

    /// The day of the week whose wire code is `code`, if there is one.
    pub open spec fn spec_from_code(code: Seq<char>) -> Option<Self> {
        if code.len() == 0 {
            None
        } else if code[0] == 'S' {
            Self::spec_from_code_s(code)
        } else if code[0] == 'M' {
            Self::spec_from_code_m(code)
        } else if code[0] == 'T' {
            Self::spec_from_code_t(code)
        } else if code[0] == 'W' {
            Self::spec_from_code_w(code)
        } else if code[0] == 'F' {
            Self::spec_from_code_f(code)
        } else {
            None
        }
    }

    /// Decodes the wire codes that begin with `S`.
    pub open spec fn spec_from_code_s(code: Seq<char>) -> Option<Self> {
        if code == seq!['S', 'U', 'N', 'D', 'A', 'Y'] {
            Some(OandaDayOfWeek::Sunday)
        } else if code == seq!['S', 'A', 'T', 'U', 'R', 'D', 'A', 'Y'] {
            Some(OandaDayOfWeek::Saturday)
        } else {
            None
        }
    }

    /// Decodes the wire codes that begin with `M`.
    pub open spec fn spec_from_code_m(code: Seq<char>) -> Option<Self> {
        if code == seq!['M', 'O', 'N', 'D', 'A', 'Y'] {
            Some(OandaDayOfWeek::Monday)
        } else {
            None
        }
    }

    /// Decodes the wire codes that begin with `T`.
    pub open spec fn spec_from_code_t(code: Seq<char>) -> Option<Self> {
        if code == seq!['T', 'U', 'E', 'S', 'D', 'A', 'Y'] {
            Some(OandaDayOfWeek::Tuesday)
        } else if code == seq!['T', 'H', 'U', 'R', 'S', 'D', 'A', 'Y'] {
            Some(OandaDayOfWeek::Thursday)
        } else {
            None
        }
    }

    /// Decodes the wire codes that begin with `W`.
    pub open spec fn spec_from_code_w(code: Seq<char>) -> Option<Self> {
        if code == seq!['W', 'E', 'D', 'N', 'E', 'S', 'D', 'A', 'Y'] {
            Some(OandaDayOfWeek::Wednesday)
        } else {
            None
        }
    }

    /// Decodes the wire codes that begin with `F`.
    pub open spec fn spec_from_code_f(code: Seq<char>) -> Option<Self> {
        if code == seq!['F', 'R', 'I', 'D', 'A', 'Y'] {
            Some(OandaDayOfWeek::Friday)
        } else {
            None
        }
    }

    /// The day of the week at position `index` in declaration order.
    pub open spec fn spec_at(index: int) -> Option<Self> {
        if index == 0 {
            Some(OandaDayOfWeek::Sunday)
        } else if index == 1 {
            Some(OandaDayOfWeek::Monday)
        } else if index == 2 {
            Some(OandaDayOfWeek::Tuesday)
        } else if index == 3 {
            Some(OandaDayOfWeek::Wednesday)
        } else if index == 4 {
            Some(OandaDayOfWeek::Thursday)
        } else if index == 5 {
            Some(OandaDayOfWeek::Friday)
        } else if index == 6 {
            Some(OandaDayOfWeek::Saturday)
        } else {
            None
        }
    }

    /// The position of this day of the week in declaration order.
    pub open spec fn spec_index(self) -> int {
        match self {
            OandaDayOfWeek::Sunday => 0,
            OandaDayOfWeek::Monday => 1,
            OandaDayOfWeek::Tuesday => 2,
            OandaDayOfWeek::Wednesday => 3,
            OandaDayOfWeek::Thursday => 4,
            OandaDayOfWeek::Friday => 5,
            OandaDayOfWeek::Saturday => 6,
        }
    }

    /// Returns the wire code of this day of the week.
    pub fn code(&self) -> (code: &'static str)
        ensures
            code@ == self.spec_code(),
    {
        match self {
            OandaDayOfWeek::Sunday => {
                proof {
                    reveal_strlit("SUNDAY");
                }
                "SUNDAY"
            },
            OandaDayOfWeek::Monday => {
                proof {
                    reveal_strlit("MONDAY");
                }
                "MONDAY"
            },
            OandaDayOfWeek::Tuesday => {
                proof {
                    reveal_strlit("TUESDAY");
                }
                "TUESDAY"
            },
            OandaDayOfWeek::Wednesday => {
                proof {
                    reveal_strlit("WEDNESDAY");
                }
                "WEDNESDAY"
            },
            OandaDayOfWeek::Thursday => {
                proof {
                    reveal_strlit("THURSDAY");
                }
                "THURSDAY"
            },
            OandaDayOfWeek::Friday => {
                proof {
                    reveal_strlit("FRIDAY");
                }
                "FRIDAY"
            },
            OandaDayOfWeek::Saturday => {
                proof {
                    reveal_strlit("SATURDAY");
                }
                "SATURDAY"
            },
        }
    }

    /// Returns the day of the week at position `index` in declaration order.
    pub fn at(index: usize) -> (found: Option<Self>)
        ensures
            found == Self::spec_at(index as int),
    {
        if index == 0 {
            Some(OandaDayOfWeek::Sunday)
        } else if index == 1 {
            Some(OandaDayOfWeek::Monday)
        } else if index == 2 {
            Some(OandaDayOfWeek::Tuesday)
        } else if index == 3 {
            Some(OandaDayOfWeek::Wednesday)
        } else if index == 4 {
            Some(OandaDayOfWeek::Thursday)
        } else if index == 5 {
            Some(OandaDayOfWeek::Friday)
        } else if index == 6 {
            Some(OandaDayOfWeek::Saturday)
        } else {
            None
        }
    }

    /// Returns the day of the week whose wire code is `code`, or `None` when no
    /// day of the week has that code.
    pub fn from_code(code: &str) -> (found: Option<Self>)
        ensures
            found == Self::spec_from_code(code@),
    {
        let mut index: usize = 0;
        while index < Self::COUNT
            invariant
                index <= Self::COUNT,
                forall|j: int|
                    0 <= j < index ==> ((#[trigger] Self::spec_at(j)) matches Some(v)
                        && v.spec_code() != code@),
            decreases Self::COUNT - index,
        {
            let candidate = Self::at(index);
            proof {
                Self::lemma_at_is_some(index as int);
            }
            let candidate = candidate.unwrap();
            if str_equals(candidate.code(), code) {
                proof {
                    Self::lemma_from_code_of_code(candidate);
                }
                return Some(candidate);
            }
            index += 1;
        }
        proof {
            if let Some(v) = Self::spec_from_code(code@) {
                Self::lemma_code_of_from_code(code@);
                Self::lemma_index_of(v);
                assert(Self::spec_at(v.spec_index()) == Some(v));
            }
        }
        None
    }

    /// Every position below `COUNT` holds a variant.
    pub proof fn lemma_at_is_some(index: int)
        requires
            0 <= index < Self::COUNT,
        ensures
            Self::spec_at(index) is Some,
    {
    }

    /// Every variant sits at its own position below `COUNT`.
    pub proof fn lemma_index_of(value: Self)
        ensures
            0 <= value.spec_index() < Self::COUNT,
            Self::spec_at(value.spec_index()) == Some(value),
    {
    }

    /// Decoding the wire code of a day of the week gives back that day of the week.
    pub proof fn lemma_from_code_of_code(value: Self)
        ensures
            Self::spec_from_code(value.spec_code()) == Some(value),
    {
        match value {
            OandaDayOfWeek::Sunday => Self::lemma_from_code_of_code_s0(value),
            OandaDayOfWeek::Monday => Self::lemma_from_code_of_code_m0(value),
            OandaDayOfWeek::Tuesday => Self::lemma_from_code_of_code_t0(value),
            OandaDayOfWeek::Wednesday => Self::lemma_from_code_of_code_w0(value),
            OandaDayOfWeek::Thursday => Self::lemma_from_code_of_code_t0(value),
            OandaDayOfWeek::Friday => Self::lemma_from_code_of_code_f0(value),
            OandaDayOfWeek::Saturday => Self::lemma_from_code_of_code_s0(value),
        }
    }

    #[verifier::spinoff_prover]
    proof fn lemma_from_code_of_code_s0(value: Self)
        requires
            value == OandaDayOfWeek::Sunday || value == OandaDayOfWeek::Saturday,
        ensures
            Self::spec_from_code(value.spec_code()) == Some(value),
    {
        match value {
            OandaDayOfWeek::Sunday => {},
            OandaDayOfWeek::Saturday => {},
            _ => {},
        }
    }

    #[verifier::spinoff_prover]
    proof fn lemma_from_code_of_code_m0(value: Self)
        requires
            value == OandaDayOfWeek::Monday,
        ensures
            Self::spec_from_code(value.spec_code()) == Some(value),
    {
        match value {
            OandaDayOfWeek::Monday => {},
            _ => {},
        }
    }

    #[verifier::spinoff_prover]
    proof fn lemma_from_code_of_code_t0(value: Self)
        requires
            value == OandaDayOfWeek::Tuesday || value == OandaDayOfWeek::Thursday,
        ensures
            Self::spec_from_code(value.spec_code()) == Some(value),
    {
        match value {
            OandaDayOfWeek::Tuesday => {},
            OandaDayOfWeek::Thursday => {},
            _ => {},
        }
    }

    #[verifier::spinoff_prover]
    proof fn lemma_from_code_of_code_w0(value: Self)
        requires
            value == OandaDayOfWeek::Wednesday,
        ensures
            Self::spec_from_code(value.spec_code()) == Some(value),
    {
        match value {
            OandaDayOfWeek::Wednesday => {},
            _ => {},
        }
    }

    #[verifier::spinoff_prover]
    proof fn lemma_from_code_of_code_f0(value: Self)
        requires
            value == OandaDayOfWeek::Friday,
        ensures
            Self::spec_from_code(value.spec_code()) == Some(value),
    {
        match value {
            OandaDayOfWeek::Friday => {},
            _ => {},
        }
    }

    /// Two day of the weeks with the same wire code are the same day of the week.
    pub proof fn lemma_code_injective(a: Self, b: Self)
        requires
            a.spec_code() == b.spec_code(),
        ensures
            a == b,
    {
        Self::lemma_from_code_of_code(a);
        Self::lemma_from_code_of_code(b);
    }

    /// A decoded day of the week has the decoded code as its wire code.
    pub proof fn lemma_code_of_from_code(code: Seq<char>)
        requires
            Self::spec_from_code(code) is Some,
        ensures
            Self::spec_from_code(code).unwrap().spec_code() == code,
    {
    }
}

/// Instrument specific commission.
#[derive(Clone, Copy, Debug)]
pub struct OandaInstrumentComission {
    pub commission: Decimal,
    pub units_traded: Decimal,
    pub minimum_commission: Decimal,
}

/// Represents the total positions size that can exist within a given window
/// for trades with guaranteed stop loss orders attached.
#[derive(Clone, Copy, Debug)]
pub struct OandaGuaranteedStopLossOrderLevelRestriction {
    pub volume: Decimal,
    pub price_range: Decimal,
}

/// The number of days of financing charged on a day of the week.
#[derive(Clone, Copy, Debug)]
pub struct OandaFinancingDayOfWeek {
    pub day_of_week: OandaDayOfWeek,
    pub days_charged: i32,
}

/// The financing rates of an instrument.
#[derive(Debug)]
pub struct OandaInstrumentFinancing {
    pub long_rate: Decimal,
    pub short_rate: Decimal,
    pub financing_days_of_week: Vec<OandaFinancingDayOfWeek>,
}

impl OandaInstrumentFinancing {
    /// `self` and `other` hold the same rates and the same days, in order.
    pub open spec fn same_as(self, other: Self) -> bool {
        &&& self.long_rate == other.long_rate
        &&& self.short_rate == other.short_rate
        &&& self.financing_days_of_week@ == other.financing_days_of_week@
    }
}

impl Clone for OandaInstrumentFinancing {
    fn clone(&self) -> (copy: Self)
        ensures
            copy.same_as(*self),
    {
        let days = self.financing_days_of_week.clone();
        assert(days@ =~= self.financing_days_of_week@);
        OandaInstrumentFinancing {
            long_rate: self.long_rate,
            short_rate: self.short_rate,
            financing_days_of_week: days,
        }
    }
}

/// A tag attached to an instrument.
#[derive(Debug)]
pub struct OandaTag {
    /// The type of the tag (the wire field `type`).
    pub tag_type: String,
    pub name: String,
}

impl Clone for OandaTag {
    fn clone(&self) -> (copy: Self)
        ensures
            copy == *self,
    {
        OandaTag { tag_type: self.tag_type.clone(), name: self.name.clone() }
    }
}

/// An instrument that can be traded on an account.
#[derive(Debug)]
pub struct OandaInstrument {
    pub name: OandaInstrumentName,
    /// The type of the instrument (the wire field `type`).
    pub instrument_type: OandaInstrumentType,
    pub display_name: String,
    pub pip_location: i32,
    pub display_precision: i32,
    pub trade_units_precision: i32,
    pub minimum_trade_size: Decimal,
    pub maximum_trailing_stop_distance: Decimal,
    pub minimum_guaranteed_stop_loss_distance: Decimal,
    pub minimum_trailing_stop_distance: Decimal,
    pub maximum_position_size: Decimal,
    pub maximum_order_units: Decimal,
    pub margin_rate: Decimal,
    pub commission: Option<OandaInstrumentComission>,
    pub guaranteed_stop_loss_order_mode: OandaGuaranteedStopLossOrderModeForInstrument,
    pub guaranteed_stop_loss_order_execution_premium: Decimal,
    pub guaranteed_stop_loss_order_level_restriction: OandaGuaranteedStopLossOrderLevelRestriction,
    pub financing: OandaInstrumentFinancing,
    pub tags: Vec<OandaTag>,
}

impl OandaInstrument {
    /// `self` and `other` describe the same instrument: every field is
    /// equal, and the financing days and the tags are the same, in order.
    pub open spec fn same_as(self, other: Self) -> bool {
        &&& self.name == other.name
        &&& self.instrument_type == other.instrument_type
        &&& self.display_name == other.display_name
        &&& self.pip_location == other.pip_location
        &&& self.display_precision == other.display_precision
        &&& self.trade_units_precision == other.trade_units_precision
        &&& self.minimum_trade_size == other.minimum_trade_size
        &&& self.maximum_trailing_stop_distance == other.maximum_trailing_stop_distance
        &&& self.minimum_guaranteed_stop_loss_distance == other.minimum_guaranteed_stop_loss_distance
        &&& self.minimum_trailing_stop_distance == other.minimum_trailing_stop_distance
        &&& self.maximum_position_size == other.maximum_position_size
        &&& self.maximum_order_units == other.maximum_order_units
        &&& self.margin_rate == other.margin_rate
        &&& self.commission == other.commission
        &&& self.guaranteed_stop_loss_order_mode == other.guaranteed_stop_loss_order_mode
        &&& self.guaranteed_stop_loss_order_execution_premium
            == other.guaranteed_stop_loss_order_execution_premium
        &&& self.guaranteed_stop_loss_order_level_restriction
            == other.guaranteed_stop_loss_order_level_restriction
        &&& self.financing.same_as(other.financing)
        &&& self.tags@ == other.tags@
    }
}

impl Clone for OandaInstrument {
    fn clone(&self) -> (copy: Self)
        ensures
            copy.same_as(*self),
    {
        let tags = self.tags.clone();
        assert(tags@ =~= self.tags@);
        OandaInstrument {
            name: self.name,
            instrument_type: self.instrument_type,
            display_name: self.display_name.clone(),
            pip_location: self.pip_location,
            display_precision: self.display_precision,
            trade_units_precision: self.trade_units_precision,
            minimum_trade_size: self.minimum_trade_size,
            maximum_trailing_stop_distance: self.maximum_trailing_stop_distance,
            minimum_guaranteed_stop_loss_distance: self.minimum_guaranteed_stop_loss_distance,
            minimum_trailing_stop_distance: self.minimum_trailing_stop_distance,
            maximum_position_size: self.maximum_position_size,
            maximum_order_units: self.maximum_order_units,
            margin_rate: self.margin_rate,
            commission: self.commission,
            guaranteed_stop_loss_order_mode: self.guaranteed_stop_loss_order_mode,
            guaranteed_stop_loss_order_execution_premium:
                self.guaranteed_stop_loss_order_execution_premium,
            guaranteed_stop_loss_order_level_restriction:
                self.guaranteed_stop_loss_order_level_restriction,
            financing: self.financing.clone(),
            tags,
        }
    }
}

/// The body of a successful `GET /v3/accounts/{account}/instruments` request.
#[derive(Debug)]
pub struct OandaInstrumentsResponse {
    pub instruments: Vec<OandaInstrument>,
    /// The ID of the most recent transaction of the account.
    pub last_transaction_id: String,
}

impl Clone for OandaInstrumentsResponse {
    fn clone(&self) -> (copy: Self)
        ensures
            copy.instruments.len() == self.instruments.len(),
            forall|i: int|
                0 <= i < self.instruments.len() ==> (#[trigger] copy.instruments[i]).same_as(
                    self.instruments[i],
                ),
            copy.last_transaction_id == self.last_transaction_id,
    {
        OandaInstrumentsResponse {
            instruments: self.instruments.clone(),
            last_transaction_id: self.last_transaction_id.clone(),
        }
    }
}


impl OandaInstrumentName {
    /// The wire codes of these instrument names beginning with `A`, as OANDA names them: `AU200_AUD`, `AUD_CAD`, `AUD_CHF`, `AUD_HKD`, `AUD_JPY`, `AUD_NZD`, `AUD_SGD`, `AUD_USD`.
    /// Each value has its code, and each code decodes to its value.
    #[verifier::spinoff_prover]
    pub proof fn lemma_wire_codes_a()
        ensures
            OandaInstrumentName::Au200Aud.spec_code() == "AU200_AUD"@,
            OandaInstrumentName::spec_from_code("AU200_AUD"@) == Some(OandaInstrumentName::Au200Aud),
            OandaInstrumentName::AudCad.spec_code() == "AUD_CAD"@,
            OandaInstrumentName::spec_from_code("AUD_CAD"@) == Some(OandaInstrumentName::AudCad),
            OandaInstrumentName::AudChf.spec_code() == "AUD_CHF"@,
            OandaInstrumentName::spec_from_code("AUD_CHF"@) == Some(OandaInstrumentName::AudChf),
            OandaInstrumentName::AudHkd.spec_code() == "AUD_HKD"@,
            OandaInstrumentName::spec_from_code("AUD_HKD"@) == Some(OandaInstrumentName::AudHkd),
            OandaInstrumentName::AudJpy.spec_code() == "AUD_JPY"@,
            OandaInstrumentName::spec_from_code("AUD_JPY"@) == Some(OandaInstrumentName::AudJpy),
            OandaInstrumentName::AudNzd.spec_code() == "AUD_NZD"@,
            OandaInstrumentName::spec_from_code("AUD_NZD"@) == Some(OandaInstrumentName::AudNzd),
            OandaInstrumentName::AudSgd.spec_code() == "AUD_SGD"@,
            OandaInstrumentName::spec_from_code("AUD_SGD"@) == Some(OandaInstrumentName::AudSgd),
            OandaInstrumentName::AudUsd.spec_code() == "AUD_USD"@,
            OandaInstrumentName::spec_from_code("AUD_USD"@) == Some(OandaInstrumentName::AudUsd),
    {
        reveal_strlit("AU200_AUD");
        assert(OandaInstrumentName::Au200Aud.spec_code() =~= "AU200_AUD"@);
        Self::lemma_from_code_of_code(OandaInstrumentName::Au200Aud);
        reveal_strlit("AUD_CAD");
        assert(OandaInstrumentName::AudCad.spec_code() =~= "AUD_CAD"@);
        Self::lemma_from_code_of_code(OandaInstrumentName::AudCad);
        reveal_strlit("AUD_CHF");
        assert(OandaInstrumentName::AudChf.spec_code() =~= "AUD_CHF"@);
        Self::lemma_from_code_of_code(OandaInstrumentName::AudChf);
        reveal_strlit("AUD_HKD");
        assert(OandaInstrumentName::AudHkd.spec_code() =~= "AUD_HKD"@);
        Self::lemma_from_code_of_code(OandaInstrumentName::AudHkd);
        reveal_strlit("AUD_JPY");
        assert(OandaInstrumentName::AudJpy.spec_code() =~= "AUD_JPY"@);
        Self::lemma_from_code_of_code(OandaInstrumentName::AudJpy);
        reveal_strlit("AUD_NZD");
        assert(OandaInstrumentName::AudNzd.spec_code() =~= "AUD_NZD"@);
        Self::lemma_from_code_of_code(OandaInstrumentName::AudNzd);
        reveal_strlit("AUD_SGD");
        assert(OandaInstrumentName::AudSgd.spec_code() =~= "AUD_SGD"@);
        Self::lemma_from_code_of_code(OandaInstrumentName::AudSgd);
        reveal_strlit("AUD_USD");
        assert(OandaInstrumentName::AudUsd.spec_code() =~= "AUD_USD"@);
        Self::lemma_from_code_of_code(OandaInstrumentName::AudUsd);
    }

    /// The wire codes of these instrument names beginning with `B`, as OANDA names them: `BCO_USD`.
    /// Each value has its code, and each code decodes to its value.
    #[verifier::spinoff_prover]
    pub proof fn lemma_wire_codes_b()
        ensures
            OandaInstrumentName::BcoUsd.spec_code() == "BCO_USD"@,
            OandaInstrumentName::spec_from_code("BCO_USD"@) == Some(OandaInstrumentName::BcoUsd),
    {
        reveal_strlit("BCO_USD");
        assert(OandaInstrumentName::BcoUsd.spec_code() =~= "BCO_USD"@);
        Self::lemma_from_code_of_code(OandaInstrumentName::BcoUsd);
    }

    /// The wire codes of these instrument names beginning with `C`, as OANDA names them: `CAD_CHF`, `CAD_HKD`, `CAD_JPY`, `CAD_SGD`, `CH20_CHF`, `CHF_HKD`, `CHF_JPY`, `CHF_ZAR`.
    /// Each value has its code, and each code decodes to its value.
    #[verifier::spinoff_prover]
    pub proof fn lemma_wire_codes_c0()
        ensures
            OandaInstrumentName::CadChf.spec_code() == "CAD_CHF"@,
            OandaInstrumentName::spec_from_code("CAD_CHF"@) == Some(OandaInstrumentName::CadChf),
            OandaInstrumentName::CadHkd.spec_code() == "CAD_HKD"@,
            OandaInstrumentName::spec_from_code("CAD_HKD"@) == Some(OandaInstrumentName::CadHkd),
            OandaInstrumentName::CadJpy.spec_code() == "CAD_JPY"@,
            OandaInstrumentName::spec_from_code("CAD_JPY"@) == Some(OandaInstrumentName::CadJpy),
            OandaInstrumentName::CadSgd.spec_code() == "CAD_SGD"@,
            OandaInstrumentName::spec_from_code("CAD_SGD"@) == Some(OandaInstrumentName::CadSgd),
            OandaInstrumentName::Ch20Chf.spec_code() == "CH20_CHF"@,
            OandaInstrumentName::spec_from_code("CH20_CHF"@) == Some(OandaInstrumentName::Ch20Chf),
            OandaInstrumentName::ChfHkd.spec_code() == "CHF_HKD"@,
            OandaInstrumentName::spec_from_code("CHF_HKD"@) == Some(OandaInstrumentName::ChfHkd),
            OandaInstrumentName::ChfJpy.spec_code() == "CHF_JPY"@,
            OandaInstrumentName::spec_from_code("CHF_JPY"@) == Some(OandaInstrumentName::ChfJpy),
            OandaInstrumentName::ChfZar.spec_code() == "CHF_ZAR"@,
            OandaInstrumentName::spec_from_code("CHF_ZAR"@) == Some(OandaInstrumentName::ChfZar),
    {
        reveal_strlit("CAD_CHF");
        assert(OandaInstrumentName::CadChf.spec_code() =~= "CAD_CHF"@);
        Self::lemma_from_code_of_code(OandaInstrumentName::CadChf);
        reveal_strlit("CAD_HKD");
        assert(OandaInstrumentName::CadHkd.spec_code() =~= "CAD_HKD"@);
        Self::lemma_from_code_of_code(OandaInstrumentName::CadHkd);
        reveal_strlit("CAD_JPY");
        assert(OandaInstrumentName::CadJpy.spec_code() =~= "CAD_JPY"@);
        Self::lemma_from_code_of_code(OandaInstrumentName::CadJpy);
        reveal_strlit("CAD_SGD");
        assert(OandaInstrumentName::CadSgd.spec_code() =~= "CAD_SGD"@);
        Self::lemma_from_code_of_code(OandaInstrumentName::CadSgd);
        reveal_strlit("CH20_CHF");
        assert(OandaInstrumentName::Ch20Chf.spec_code() =~= "CH20_CHF"@);
        Self::lemma_from_code_of_code(OandaInstrumentName::Ch20Chf);
        reveal_strlit("CHF_HKD");
        assert(OandaInstrumentName::ChfHkd.spec_code() =~= "CHF_HKD"@);
        Self::lemma_from_code_of_code(OandaInstrumentName::ChfHkd);
        reveal_strlit("CHF_JPY");
        assert(OandaInstrumentName::ChfJpy.spec_code() =~= "CHF_JPY"@);
        Self::lemma_from_code_of_code(OandaInstrumentName::ChfJpy);
        reveal_strlit("CHF_ZAR");
        assert(OandaInstrumentName::ChfZar.spec_code() =~= "CHF_ZAR"@);
        Self::lemma_from_code_of_code(OandaInstrumentName::ChfZar);
    }

    /// The wire codes of these instrument names beginning with `C`, as OANDA names them: `CHINAH_HKD`, `CN50_USD`, `CORN_USD`.
    /// Each value has its code, and each code decodes to its value.
    #[verifier::spinoff_prover]
    pub proof fn lemma_wire_codes_c1()
        ensures
            OandaInstrumentName::ChinahHkd.spec_code() == "CHINAH_HKD"@,
            OandaInstrumentName::spec_from_code("CHINAH_HKD"@) == Some(OandaInstrumentName::ChinahHkd),
            OandaInstrumentName::Cn50Usd.spec_code() == "CN50_USD"@,
            OandaInstrumentName::spec_from_code("CN50_USD"@) == Some(OandaInstrumentName::Cn50Usd),
            OandaInstrumentName::CornUsd.spec_code() == "CORN_USD"@,
            OandaInstrumentName::spec_from_code("CORN_USD"@) == Some(OandaInstrumentName::CornUsd),
    {
        reveal_strlit("CHINAH_HKD");
        assert(OandaInstrumentName::ChinahHkd.spec_code() =~= "CHINAH_HKD"@);
        Self::lemma_from_code_of_code(OandaInstrumentName::ChinahHkd);
        reveal_strlit("CN50_USD");
        assert(OandaInstrumentName::Cn50Usd.spec_code() =~= "CN50_USD"@);
        Self::lemma_from_code_of_code(OandaInstrumentName::Cn50Usd);
        reveal_strlit("CORN_USD");
        assert(OandaInstrumentName::CornUsd.spec_code() =~= "CORN_USD"@);
        Self::lemma_from_code_of_code(OandaInstrumentName::CornUsd);
    }

    /// The wire codes of these instrument names beginning with `D`, as OANDA names them: `DE10YB_EUR`, `DE30_EUR`.
    /// Each value has its code, and each code decodes to its value.
    #[verifier::spinoff_prover]
    pub proof fn lemma_wire_codes_d()
        ensures
            OandaInstrumentName::De10YbEur.spec_code() == "DE10YB_EUR"@,
            OandaInstrumentName::spec_from_code("DE10YB_EUR"@) == Some(OandaInstrumentName::De10YbEur),
            OandaInstrumentName::De30Eur.spec_code() == "DE30_EUR"@,
            OandaInstrumentName::spec_from_code("DE30_EUR"@) == Some(OandaInstrumentName::De30Eur),
    {
        reveal_strlit("DE10YB_EUR");
        assert(OandaInstrumentName::De10YbEur.spec_code() =~= "DE10YB_EUR"@);
        Self::lemma_from_code_of_code(OandaInstrumentName::De10YbEur);
        reveal_strlit("DE30_EUR");
        assert(OandaInstrumentName::De30Eur.spec_code() =~= "DE30_EUR"@);
        Self::lemma_from_code_of_code(OandaInstrumentName::De30Eur);
    }

    /// The wire codes of these instrument names beginning with `E`, as OANDA names them: `ESPIX_EUR`, `EU50_EUR`, `EUR_AUD`, `EUR_CAD`, `EUR_CHF`, `EUR_CZK`, `EUR_DKK`, `EUR_GBP`.
    /// Each value has its code, and each code decodes to its value.
    #[verifier::spinoff_prover]
    pub proof fn lemma_wire_codes_e0()
        ensures
            OandaInstrumentName::EspixEur.spec_code() == "ESPIX_EUR"@,
            OandaInstrumentName::spec_from_code("ESPIX_EUR"@) == Some(OandaInstrumentName::EspixEur),
            OandaInstrumentName::Eu50Eur.spec_code() == "EU50_EUR"@,
            OandaInstrumentName::spec_from_code("EU50_EUR"@) == Some(OandaInstrumentName::Eu50Eur),
            OandaInstrumentName::EurAud.spec_code() == "EUR_AUD"@,
            OandaInstrumentName::spec_from_code("EUR_AUD"@) == Some(OandaInstrumentName::EurAud),
            OandaInstrumentName::EurCad.spec_code() == "EUR_CAD"@,
            OandaInstrumentName::spec_from_code("EUR_CAD"@) == Some(OandaInstrumentName::EurCad),
            OandaInstrumentName::EurChf.spec_code() == "EUR_CHF"@,
            OandaInstrumentName::spec_from_code("EUR_CHF"@) == Some(OandaInstrumentName::EurChf),
            OandaInstrumentName::EurCzk.spec_code() == "EUR_CZK"@,
            OandaInstrumentName::spec_from_code("EUR_CZK"@) == Some(OandaInstrumentName::EurCzk),
            OandaInstrumentName::EurDkk.spec_code() == "EUR_DKK"@,
            OandaInstrumentName::spec_from_code("EUR_DKK"@) == Some(OandaInstrumentName::EurDkk),
            OandaInstrumentName::EurGbp.spec_code() == "EUR_GBP"@,
            OandaInstrumentName::spec_from_code("EUR_GBP"@) == Some(OandaInstrumentName::EurGbp),
    {
        reveal_strlit("ESPIX_EUR");
        assert(OandaInstrumentName::EspixEur.spec_code() =~= "ESPIX_EUR"@);
        Self::lemma_from_code_of_code(OandaInstrumentName::EspixEur);
        reveal_strlit("EU50_EUR");
        assert(OandaInstrumentName::Eu50Eur.spec_code() =~= "EU50_EUR"@);
        Self::lemma_from_code_of_code(OandaInstrumentName::Eu50Eur);
        reveal_strlit("EUR_AUD");
        assert(OandaInstrumentName::EurAud.spec_code() =~= "EUR_AUD"@);
        Self::lemma_from_code_of_code(OandaInstrumentName::EurAud);
        reveal_strlit("EUR_CAD");
        assert(OandaInstrumentName::EurCad.spec_code() =~= "EUR_CAD"@);
        Self::lemma_from_code_of_code(OandaInstrumentName::EurCad);
        reveal_strlit("EUR_CHF");
        assert(OandaInstrumentName::EurChf.spec_code() =~= "EUR_CHF"@);
        Self::lemma_from_code_of_code(OandaInstrumentName::EurChf);
        reveal_strlit("EUR_CZK");
        assert(OandaInstrumentName::EurCzk.spec_code() =~= "EUR_CZK"@);
        Self::lemma_from_code_of_code(OandaInstrumentName::EurCzk);
        reveal_strlit("EUR_DKK");
        assert(OandaInstrumentName::EurDkk.spec_code() =~= "EUR_DKK"@);
        Self::lemma_from_code_of_code(OandaInstrumentName::EurDkk);
        reveal_strlit("EUR_GBP");
        assert(OandaInstrumentName::EurGbp.spec_code() =~= "EUR_GBP"@);
        Self::lemma_from_code_of_code(OandaInstrumentName::EurGbp);
    }

    /// The wire codes of these instrument names beginning with `E`, as OANDA names them: `EUR_HKD`, `EUR_HUF`, `EUR_JPY`, `EUR_NOK`, `EUR_NZD`, `EUR_PLN`, `EUR_SEK`, `EUR_SGD`.
    /// Each value has its code, and each code decodes to its value.
    #[verifier::spinoff_prover]
    pub proof fn lemma_wire_codes_e1()
        ensures
            OandaInstrumentName::EurHkd.spec_code() == "EUR_HKD"@,
            OandaInstrumentName::spec_from_code("EUR_HKD"@) == Some(OandaInstrumentName::EurHkd),
            OandaInstrumentName::EurHuf.spec_code() == "EUR_HUF"@,
            OandaInstrumentName::spec_from_code("EUR_HUF"@) == Some(OandaInstrumentName::EurHuf),
            OandaInstrumentName::EurJpy.spec_code() == "EUR_JPY"@,
            OandaInstrumentName::spec_from_code("EUR_JPY"@) == Some(OandaInstrumentName::EurJpy),
            OandaInstrumentName::EurNok.spec_code() == "EUR_NOK"@,
            OandaInstrumentName::spec_from_code("EUR_NOK"@) == Some(OandaInstrumentName::EurNok),
            OandaInstrumentName::EurNzd.spec_code() == "EUR_NZD"@,
            OandaInstrumentName::spec_from_code("EUR_NZD"@) == Some(OandaInstrumentName::EurNzd),
            OandaInstrumentName::EurPln.spec_code() == "EUR_PLN"@,
            OandaInstrumentName::spec_from_code("EUR_PLN"@) == Some(OandaInstrumentName::EurPln),
            OandaInstrumentName::EurSek.spec_code() == "EUR_SEK"@,
            OandaInstrumentName::spec_from_code("EUR_SEK"@) == Some(OandaInstrumentName::EurSek),
            OandaInstrumentName::EurSgd.spec_code() == "EUR_SGD"@,
            OandaInstrumentName::spec_from_code("EUR_SGD"@) == Some(OandaInstrumentName::EurSgd),
    {
        reveal_strlit("EUR_HKD");
        assert(OandaInstrumentName::EurHkd.spec_code() =~= "EUR_HKD"@);
        Self::lemma_from_code_of_code(OandaInstrumentName::EurHkd);
        reveal_strlit("EUR_HUF");
        assert(OandaInstrumentName::EurHuf.spec_code() =~= "EUR_HUF"@);
        Self::lemma_from_code_of_code(OandaInstrumentName::EurHuf);
        reveal_strlit("EUR_JPY");
        assert(OandaInstrumentName::EurJpy.spec_code() =~= "EUR_JPY"@);
        Self::lemma_from_code_of_code(OandaInstrumentName::EurJpy);
        reveal_strlit("EUR_NOK");
        assert(OandaInstrumentName::EurNok.spec_code() =~= "EUR_NOK"@);
        Self::lemma_from_code_of_code(OandaInstrumentName::EurNok);
        reveal_strlit("EUR_NZD");
        assert(OandaInstrumentName::EurNzd.spec_code() =~= "EUR_NZD"@);
        Self::lemma_from_code_of_code(OandaInstrumentName::EurNzd);
        reveal_strlit("EUR_PLN");
        assert(OandaInstrumentName::EurPln.spec_code() =~= "EUR_PLN"@);
        Self::lemma_from_code_of_code(OandaInstrumentName::EurPln);
        reveal_strlit("EUR_SEK");
        assert(OandaInstrumentName::EurSek.spec_code() =~= "EUR_SEK"@);
        Self::lemma_from_code_of_code(OandaInstrumentName::EurSek);
        reveal_strlit("EUR_SGD");
        assert(OandaInstrumentName::EurSgd.spec_code() =~= "EUR_SGD"@);
        Self::lemma_from_code_of_code(OandaInstrumentName::EurSgd);
    }

    /// The wire codes of these instrument names beginning with `E`, as OANDA names them: `EUR_TRY`, `EUR_USD`, `EUR_ZAR`.
    /// Each value has its code, and each code decodes to its value.
    #[verifier::spinoff_prover]
    pub proof fn lemma_wire_codes_e2()
        ensures
            OandaInstrumentName::EurTry.spec_code() == "EUR_TRY"@,
            OandaInstrumentName::spec_from_code("EUR_TRY"@) == Some(OandaInstrumentName::EurTry),
            OandaInstrumentName::EurUsd.spec_code() == "EUR_USD"@,
            OandaInstrumentName::spec_from_code("EUR_USD"@) == Some(OandaInstrumentName::EurUsd),
            OandaInstrumentName::EurZar.spec_code() == "EUR_ZAR"@,
            OandaInstrumentName::spec_from_code("EUR_ZAR"@) == Some(OandaInstrumentName::EurZar),
    {
        reveal_strlit("EUR_TRY");
        assert(OandaInstrumentName::EurTry.spec_code() =~= "EUR_TRY"@);
        Self::lemma_from_code_of_code(OandaInstrumentName::EurTry);
        reveal_strlit("EUR_USD");
        assert(OandaInstrumentName::EurUsd.spec_code() =~= "EUR_USD"@);
        Self::lemma_from_code_of_code(OandaInstrumentName::EurUsd);
        reveal_strlit("EUR_ZAR");
        assert(OandaInstrumentName::EurZar.spec_code() =~= "EUR_ZAR"@);
        Self::lemma_from_code_of_code(OandaInstrumentName::EurZar);
    }

    /// The wire codes of these instrument names beginning with `F`, as OANDA names them: `FR40_EUR`.
    /// Each value has its code, and each code decodes to its value.
    #[verifier::spinoff_prover]
    pub proof fn lemma_wire_codes_f()
        ensures
            OandaInstrumentName::Fr40Eur.spec_code() == "FR40_EUR"@,
            OandaInstrumentName::spec_from_code("FR40_EUR"@) == Some(OandaInstrumentName::Fr40Eur),
    {
        reveal_strlit("FR40_EUR");
        assert(OandaInstrumentName::Fr40Eur.spec_code() =~= "FR40_EUR"@);
        Self::lemma_from_code_of_code(OandaInstrumentName::Fr40Eur);
    }

    /// The wire codes of these instrument names beginning with `G`, as OANDA names them: `GBP_AUD`, `GBP_CAD`, `GBP_CHF`, `GBP_HKD`, `GBP_JPY`, `GBP_NZD`, `GBP_PLN`, `GBP_SGD`.
    /// Each value has its code, and each code decodes to its value.
    #[verifier::spinoff_prover]
    pub proof fn lemma_wire_codes_g0()
        ensures
            OandaInstrumentName::GbpAud.spec_code() == "GBP_AUD"@,
            OandaInstrumentName::spec_from_code("GBP_AUD"@) == Some(OandaInstrumentName::GbpAud),
            OandaInstrumentName::GbpCad.spec_code() == "GBP_CAD"@,
            OandaInstrumentName::spec_from_code("GBP_CAD"@) == Some(OandaInstrumentName::GbpCad),
            OandaInstrumentName::GbpChf.spec_code() == "GBP_CHF"@,
            OandaInstrumentName::spec_from_code("GBP_CHF"@) == Some(OandaInstrumentName::GbpChf),
            OandaInstrumentName::GbpHkd.spec_code() == "GBP_HKD"@,
            OandaInstrumentName::spec_from_code("GBP_HKD"@) == Some(OandaInstrumentName::GbpHkd),
            OandaInstrumentName::GbpJpy.spec_code() == "GBP_JPY"@,
            OandaInstrumentName::spec_from_code("GBP_JPY"@) == Some(OandaInstrumentName::GbpJpy),
            OandaInstrumentName::GbpNzd.spec_code() == "GBP_NZD"@,
            OandaInstrumentName::spec_from_code("GBP_NZD"@) == Some(OandaInstrumentName::GbpNzd),
            OandaInstrumentName::GbpPln.spec_code() == "GBP_PLN"@,
            OandaInstrumentName::spec_from_code("GBP_PLN"@) == Some(OandaInstrumentName::GbpPln),
            OandaInstrumentName::GbpSgd.spec_code() == "GBP_SGD"@,
            OandaInstrumentName::spec_from_code("GBP_SGD"@) == Some(OandaInstrumentName::GbpSgd),
    {
        reveal_strlit("GBP_AUD");
        assert(OandaInstrumentName::GbpAud.spec_code() =~= "GBP_AUD"@);
        Self::lemma_from_code_of_code(OandaInstrumentName::GbpAud);
        reveal_strlit("GBP_CAD");
        assert(OandaInstrumentName::GbpCad.spec_code() =~= "GBP_CAD"@);
        Self::lemma_from_code_of_code(OandaInstrumentName::GbpCad);
        reveal_strlit("GBP_CHF");
        assert(OandaInstrumentName::GbpChf.spec_code() =~= "GBP_CHF"@);
        Self::lemma_from_code_of_code(OandaInstrumentName::GbpChf);
        reveal_strlit("GBP_HKD");
        assert(OandaInstrumentName::GbpHkd.spec_code() =~= "GBP_HKD"@);
        Self::lemma_from_code_of_code(OandaInstrumentName::GbpHkd);
        reveal_strlit("GBP_JPY");
        assert(OandaInstrumentName::GbpJpy.spec_code() =~= "GBP_JPY"@);
        Self::lemma_from_code_of_code(OandaInstrumentName::GbpJpy);
        reveal_strlit("GBP_NZD");
        assert(OandaInstrumentName::GbpNzd.spec_code() =~= "GBP_NZD"@);
        Self::lemma_from_code_of_code(OandaInstrumentName::GbpNzd);
        reveal_strlit("GBP_PLN");
        assert(OandaInstrumentName::GbpPln.spec_code() =~= "GBP_PLN"@);
        Self::lemma_from_code_of_code(OandaInstrumentName::GbpPln);
        reveal_strlit("GBP_SGD");
        assert(OandaInstrumentName::GbpSgd.spec_code() =~= "GBP_SGD"@);
        Self::lemma_from_code_of_code(OandaInstrumentName::GbpSgd);
    }

    /// The wire codes of these instrument names beginning with `G`, as OANDA names them: `GBP_USD`, `GBP_ZAR`.
    /// Each value has its code, and each code decodes to its value.
    #[verifier::spinoff_prover]
    pub proof fn lemma_wire_codes_g1()
        ensures
            OandaInstrumentName::GbpUsd.spec_code() == "GBP_USD"@,
            OandaInstrumentName::spec_from_code("GBP_USD"@) == Some(OandaInstrumentName::GbpUsd),
            OandaInstrumentName::GbpZar.spec_code() == "GBP_ZAR"@,
            OandaInstrumentName::spec_from_code("GBP_ZAR"@) == Some(OandaInstrumentName::GbpZar),
    {
        reveal_strlit("GBP_USD");
        assert(OandaInstrumentName::GbpUsd.spec_code() =~= "GBP_USD"@);
        Self::lemma_from_code_of_code(OandaInstrumentName::GbpUsd);
        reveal_strlit("GBP_ZAR");
        assert(OandaInstrumentName::GbpZar.spec_code() =~= "GBP_ZAR"@);
        Self::lemma_from_code_of_code(OandaInstrumentName::GbpZar);
    }

    /// The wire codes of these instrument names beginning with `H`, as OANDA names them: `HK33_HKD`, `HKD_JPY`.
    /// Each value has its code, and each code decodes to its value.
    #[verifier::spinoff_prover]
    pub proof fn lemma_wire_codes_h()
        ensures
            OandaInstrumentName::Hk33Hkd.spec_code() == "HK33_HKD"@,
            OandaInstrumentName::spec_from_code("HK33_HKD"@) == Some(OandaInstrumentName::Hk33Hkd),
            OandaInstrumentName::HkdJpy.spec_code() == "HKD_JPY"@,
            OandaInstrumentName::spec_from_code("HKD_JPY"@) == Some(OandaInstrumentName::HkdJpy),
    {
        reveal_strlit("HK33_HKD");
        assert(OandaInstrumentName::Hk33Hkd.spec_code() =~= "HK33_HKD"@);
        Self::lemma_from_code_of_code(OandaInstrumentName::Hk33Hkd);
        reveal_strlit("HKD_JPY");
        assert(OandaInstrumentName::HkdJpy.spec_code() =~= "HKD_JPY"@);
        Self::lemma_from_code_of_code(OandaInstrumentName::HkdJpy);
    }

    /// The wire codes of these instrument names beginning with `J`, as OANDA names them: `JP225_USD`, `JP225Y_JPY`.
    /// Each value has its code, and each code decodes to its value.
    #[verifier::spinoff_prover]
    pub proof fn lemma_wire_codes_j()
        ensures
            OandaInstrumentName::Jp225Usd.spec_code() == "JP225_USD"@,
            OandaInstrumentName::spec_from_code("JP225_USD"@) == Some(OandaInstrumentName::Jp225Usd),
            OandaInstrumentName::Jp225YJpy.spec_code() == "JP225Y_JPY"@,
            OandaInstrumentName::spec_from_code("JP225Y_JPY"@) == Some(OandaInstrumentName::Jp225YJpy),
    {
        reveal_strlit("JP225_USD");
        assert(OandaInstrumentName::Jp225Usd.spec_code() =~= "JP225_USD"@);
        Self::lemma_from_code_of_code(OandaInstrumentName::Jp225Usd);
        reveal_strlit("JP225Y_JPY");
        assert(OandaInstrumentName::Jp225YJpy.spec_code() =~= "JP225Y_JPY"@);
        Self::lemma_from_code_of_code(OandaInstrumentName::Jp225YJpy);
    }

    /// The wire codes of these instrument names beginning with `N`, as OANDA names them: `NAS100_USD`, `NATGAS_USD`, `NL25_EUR`, `NZD_CAD`, `NZD_CHF`, `NZD_HKD`, `NZD_JPY`, `NZD_SGD`.
    /// Each value has its code, and each code decodes to its value.
    #[verifier::spinoff_prover]
    pub proof fn lemma_wire_codes_n0()
        ensures
            OandaInstrumentName::Nas100Usd.spec_code() == "NAS100_USD"@,
            OandaInstrumentName::spec_from_code("NAS100_USD"@) == Some(OandaInstrumentName::Nas100Usd),
            OandaInstrumentName::NatgasUsd.spec_code() == "NATGAS_USD"@,
            OandaInstrumentName::spec_from_code("NATGAS_USD"@) == Some(OandaInstrumentName::NatgasUsd),
            OandaInstrumentName::Nl25Eur.spec_code() == "NL25_EUR"@,
            OandaInstrumentName::spec_from_code("NL25_EUR"@) == Some(OandaInstrumentName::Nl25Eur),
            OandaInstrumentName::NzdCad.spec_code() == "NZD_CAD"@,
            OandaInstrumentName::spec_from_code("NZD_CAD"@) == Some(OandaInstrumentName::NzdCad),
            OandaInstrumentName::NzdChf.spec_code() == "NZD_CHF"@,
            OandaInstrumentName::spec_from_code("NZD_CHF"@) == Some(OandaInstrumentName::NzdChf),
            OandaInstrumentName::NzdHkd.spec_code() == "NZD_HKD"@,
            OandaInstrumentName::spec_from_code("NZD_HKD"@) == Some(OandaInstrumentName::NzdHkd),
            OandaInstrumentName::NzdJpy.spec_code() == "NZD_JPY"@,
            OandaInstrumentName::spec_from_code("NZD_JPY"@) == Some(OandaInstrumentName::NzdJpy),
            OandaInstrumentName::NzdSgd.spec_code() == "NZD_SGD"@,
            OandaInstrumentName::spec_from_code("NZD_SGD"@) == Some(OandaInstrumentName::NzdSgd),
    {
        reveal_strlit("NAS100_USD");
        assert(OandaInstrumentName::Nas100Usd.spec_code() =~= "NAS100_USD"@);
        Self::lemma_from_code_of_code(OandaInstrumentName::Nas100Usd);
        reveal_strlit("NATGAS_USD");
        assert(OandaInstrumentName::NatgasUsd.spec_code() =~= "NATGAS_USD"@);
        Self::lemma_from_code_of_code(OandaInstrumentName::NatgasUsd);
        reveal_strlit("NL25_EUR");
        assert(OandaInstrumentName::Nl25Eur.spec_code() =~= "NL25_EUR"@);
        Self::lemma_from_code_of_code(OandaInstrumentName::Nl25Eur);
        reveal_strlit("NZD_CAD");
        assert(OandaInstrumentName::NzdCad.spec_code() =~= "NZD_CAD"@);
        Self::lemma_from_code_of_code(OandaInstrumentName::NzdCad);
        reveal_strlit("NZD_CHF");
        assert(OandaInstrumentName::NzdChf.spec_code() =~= "NZD_CHF"@);
        Self::lemma_from_code_of_code(OandaInstrumentName::NzdChf);
        reveal_strlit("NZD_HKD");
        assert(OandaInstrumentName::NzdHkd.spec_code() =~= "NZD_HKD"@);
        Self::lemma_from_code_of_code(OandaInstrumentName::NzdHkd);
        reveal_strlit("NZD_JPY");
        assert(OandaInstrumentName::NzdJpy.spec_code() =~= "NZD_JPY"@);
        Self::lemma_from_code_of_code(OandaInstrumentName::NzdJpy);
        reveal_strlit("NZD_SGD");
        assert(OandaInstrumentName::NzdSgd.spec_code() =~= "NZD_SGD"@);
        Self::lemma_from_code_of_code(OandaInstrumentName::NzdSgd);
    }

    /// The wire codes of these instrument names beginning with `N`, as OANDA names them: `NZD_USD`.
    /// Each value has its code, and each code decodes to its value.
    #[verifier::spinoff_prover]
    pub proof fn lemma_wire_codes_n1()
        ensures
            OandaInstrumentName::NzdUsd.spec_code() == "NZD_USD"@,
            OandaInstrumentName::spec_from_code("NZD_USD"@) == Some(OandaInstrumentName::NzdUsd),
    {
        reveal_strlit("NZD_USD");
        assert(OandaInstrumentName::NzdUsd.spec_code() =~= "NZD_USD"@);
        Self::lemma_from_code_of_code(OandaInstrumentName::NzdUsd);
    }

    /// The wire codes of these instrument names beginning with `S`, as OANDA names them: `SG30_SGD`, `SGD_CHF`, `SGD_JPY`, `SOYBN_USD`, `SPX500_USD`, `SUGAR_USD`.
    /// Each value has its code, and each code decodes to its value.
    #[verifier::spinoff_prover]
    pub proof fn lemma_wire_codes_s()
        ensures
            OandaInstrumentName::Sg30Sgd.spec_code() == "SG30_SGD"@,
            OandaInstrumentName::spec_from_code("SG30_SGD"@) == Some(OandaInstrumentName::Sg30Sgd),
            OandaInstrumentName::SgdChf.spec_code() == "SGD_CHF"@,
            OandaInstrumentName::spec_from_code("SGD_CHF"@) == Some(OandaInstrumentName::SgdChf),
            OandaInstrumentName::SgdJpy.spec_code() == "SGD_JPY"@,
            OandaInstrumentName::spec_from_code("SGD_JPY"@) == Some(OandaInstrumentName::SgdJpy),
            OandaInstrumentName::SoybnUsd.spec_code() == "SOYBN_USD"@,
            OandaInstrumentName::spec_from_code("SOYBN_USD"@) == Some(OandaInstrumentName::SoybnUsd),
            OandaInstrumentName::Spx500Usd.spec_code() == "SPX500_USD"@,
            OandaInstrumentName::spec_from_code("SPX500_USD"@) == Some(OandaInstrumentName::Spx500Usd),
            OandaInstrumentName::SugarUsd.spec_code() == "SUGAR_USD"@,
            OandaInstrumentName::spec_from_code("SUGAR_USD"@) == Some(OandaInstrumentName::SugarUsd),
    {
        reveal_strlit("SG30_SGD");
        assert(OandaInstrumentName::Sg30Sgd.spec_code() =~= "SG30_SGD"@);
        Self::lemma_from_code_of_code(OandaInstrumentName::Sg30Sgd);
        reveal_strlit("SGD_CHF");
        assert(OandaInstrumentName::SgdChf.spec_code() =~= "SGD_CHF"@);
        Self::lemma_from_code_of_code(OandaInstrumentName::SgdChf);
        reveal_strlit("SGD_JPY");
        assert(OandaInstrumentName::SgdJpy.spec_code() =~= "SGD_JPY"@);
        Self::lemma_from_code_of_code(OandaInstrumentName::SgdJpy);
        reveal_strlit("SOYBN_USD");
        assert(OandaInstrumentName::SoybnUsd.spec_code() =~= "SOYBN_USD"@);
        Self::lemma_from_code_of_code(OandaInstrumentName::SoybnUsd);
        reveal_strlit("SPX500_USD");
        assert(OandaInstrumentName::Spx500Usd.spec_code() =~= "SPX500_USD"@);
        Self::lemma_from_code_of_code(OandaInstrumentName::Spx500Usd);
        reveal_strlit("SUGAR_USD");
        assert(OandaInstrumentName::SugarUsd.spec_code() =~= "SUGAR_USD"@);
        Self::lemma_from_code_of_code(OandaInstrumentName::SugarUsd);
    }

    /// The wire codes of these instrument names beginning with `T`, as OANDA names them: `TRY_JPY`.
    /// Each value has its code, and each code decodes to its value.
    #[verifier::spinoff_prover]
    pub proof fn lemma_wire_codes_t()
        ensures
            OandaInstrumentName::TryJpy.spec_code() == "TRY_JPY"@,
            OandaInstrumentName::spec_from_code("TRY_JPY"@) == Some(OandaInstrumentName::TryJpy),
    {
        reveal_strlit("TRY_JPY");
        assert(OandaInstrumentName::TryJpy.spec_code() =~= "TRY_JPY"@);
        Self::lemma_from_code_of_code(OandaInstrumentName::TryJpy);
    }

    /// The wire codes of these instrument names beginning with `U`, as OANDA names them: `UK100_GBP`, `UK10YB_GBP`, `US2000_USD`, `US30_USD`, `USB02Y_USD`, `USB05Y_USD`, `USB10Y_USD`, `USB30Y_USD`.
    /// Each value has its code, and each code decodes to its value.
    #[verifier::spinoff_prover]
    pub proof fn lemma_wire_codes_u0()
        ensures
            OandaInstrumentName::Uk100Gbp.spec_code() == "UK100_GBP"@,
            OandaInstrumentName::spec_from_code("UK100_GBP"@) == Some(OandaInstrumentName::Uk100Gbp),
            OandaInstrumentName::Uk10YbGbp.spec_code() == "UK10YB_GBP"@,
            OandaInstrumentName::spec_from_code("UK10YB_GBP"@) == Some(OandaInstrumentName::Uk10YbGbp),
            OandaInstrumentName::Us2000Usd.spec_code() == "US2000_USD"@,
            OandaInstrumentName::spec_from_code("US2000_USD"@) == Some(OandaInstrumentName::Us2000Usd),
            OandaInstrumentName::Us30Usd.spec_code() == "US30_USD"@,
            OandaInstrumentName::spec_from_code("US30_USD"@) == Some(OandaInstrumentName::Us30Usd),
            OandaInstrumentName::Usb02YUsd.spec_code() == "USB02Y_USD"@,
            OandaInstrumentName::spec_from_code("USB02Y_USD"@) == Some(OandaInstrumentName::Usb02YUsd),
            OandaInstrumentName::Usb05YUsd.spec_code() == "USB05Y_USD"@,
            OandaInstrumentName::spec_from_code("USB05Y_USD"@) == Some(OandaInstrumentName::Usb05YUsd),
            OandaInstrumentName::Usb10YUsd.spec_code() == "USB10Y_USD"@,
            OandaInstrumentName::spec_from_code("USB10Y_USD"@) == Some(OandaInstrumentName::Usb10YUsd),
            OandaInstrumentName::Usb30YUsd.spec_code() == "USB30Y_USD"@,
            OandaInstrumentName::spec_from_code("USB30Y_USD"@) == Some(OandaInstrumentName::Usb30YUsd),
    {
        reveal_strlit("UK100_GBP");
        assert(OandaInstrumentName::Uk100Gbp.spec_code() =~= "UK100_GBP"@);
        Self::lemma_from_code_of_code(OandaInstrumentName::Uk100Gbp);
        reveal_strlit("UK10YB_GBP");
        assert(OandaInstrumentName::Uk10YbGbp.spec_code() =~= "UK10YB_GBP"@);
        Self::lemma_from_code_of_code(OandaInstrumentName::Uk10YbGbp);
        reveal_strlit("US2000_USD");
        assert(OandaInstrumentName::Us2000Usd.spec_code() =~= "US2000_USD"@);
        Self::lemma_from_code_of_code(OandaInstrumentName::Us2000Usd);
        reveal_strlit("US30_USD");
        assert(OandaInstrumentName::Us30Usd.spec_code() =~= "US30_USD"@);
        Self::lemma_from_code_of_code(OandaInstrumentName::Us30Usd);
        reveal_strlit("USB02Y_USD");
        assert(OandaInstrumentName::Usb02YUsd.spec_code() =~= "USB02Y_USD"@);
        Self::lemma_from_code_of_code(OandaInstrumentName::Usb02YUsd);
        reveal_strlit("USB05Y_USD");
        assert(OandaInstrumentName::Usb05YUsd.spec_code() =~= "USB05Y_USD"@);
        Self::lemma_from_code_of_code(OandaInstrumentName::Usb05YUsd);
        reveal_strlit("USB10Y_USD");
        assert(OandaInstrumentName::Usb10YUsd.spec_code() =~= "USB10Y_USD"@);
        Self::lemma_from_code_of_code(OandaInstrumentName::Usb10YUsd);
        reveal_strlit("USB30Y_USD");
        assert(OandaInstrumentName::Usb30YUsd.spec_code() =~= "USB30Y_USD"@);
        Self::lemma_from_code_of_code(OandaInstrumentName::Usb30YUsd);
    }

    /// The wire codes of these instrument names beginning with `U`, as OANDA names them: `USD_CAD`, `USD_CHF`, `USD_CNH`, `USD_CZK`, `USD_DKK`, `USD_HKD`, `USD_HUF`, `USD_JPY`.
    /// Each value has its code, and each code decodes to its value.
    #[verifier::spinoff_prover]
    pub proof fn lemma_wire_codes_u1()
        ensures
            OandaInstrumentName::UsdCad.spec_code() == "USD_CAD"@,
            OandaInstrumentName::spec_from_code("USD_CAD"@) == Some(OandaInstrumentName::UsdCad),
            OandaInstrumentName::UsdChf.spec_code() == "USD_CHF"@,
            OandaInstrumentName::spec_from_code("USD_CHF"@) == Some(OandaInstrumentName::UsdChf),
            OandaInstrumentName::UsdCnh.spec_code() == "USD_CNH"@,
            OandaInstrumentName::spec_from_code("USD_CNH"@) == Some(OandaInstrumentName::UsdCnh),
            OandaInstrumentName::UsdCzk.spec_code() == "USD_CZK"@,
            OandaInstrumentName::spec_from_code("USD_CZK"@) == Some(OandaInstrumentName::UsdCzk),
            OandaInstrumentName::UsdDkk.spec_code() == "USD_DKK"@,
            OandaInstrumentName::spec_from_code("USD_DKK"@) == Some(OandaInstrumentName::UsdDkk),
            OandaInstrumentName::UsdHkd.spec_code() == "USD_HKD"@,
            OandaInstrumentName::spec_from_code("USD_HKD"@) == Some(OandaInstrumentName::UsdHkd),
            OandaInstrumentName::UsdHuf.spec_code() == "USD_HUF"@,
            OandaInstrumentName::spec_from_code("USD_HUF"@) == Some(OandaInstrumentName::UsdHuf),
            OandaInstrumentName::UsdJpy.spec_code() == "USD_JPY"@,
            OandaInstrumentName::spec_from_code("USD_JPY"@) == Some(OandaInstrumentName::UsdJpy),
    {
        reveal_strlit("USD_CAD");
        assert(OandaInstrumentName::UsdCad.spec_code() =~= "USD_CAD"@);
        Self::lemma_from_code_of_code(OandaInstrumentName::UsdCad);
        reveal_strlit("USD_CHF");
        assert(OandaInstrumentName::UsdChf.spec_code() =~= "USD_CHF"@);
        Self::lemma_from_code_of_code(OandaInstrumentName::UsdChf);
        reveal_strlit("USD_CNH");
        assert(OandaInstrumentName::UsdCnh.spec_code() =~= "USD_CNH"@);
        Self::lemma_from_code_of_code(OandaInstrumentName::UsdCnh);
        reveal_strlit("USD_CZK");
        assert(OandaInstrumentName::UsdCzk.spec_code() =~= "USD_CZK"@);
        Self::lemma_from_code_of_code(OandaInstrumentName::UsdCzk);
        reveal_strlit("USD_DKK");
        assert(OandaInstrumentName::UsdDkk.spec_code() =~= "USD_DKK"@);
        Self::lemma_from_code_of_code(OandaInstrumentName::UsdDkk);
        reveal_strlit("USD_HKD");
        assert(OandaInstrumentName::UsdHkd.spec_code() =~= "USD_HKD"@);
        Self::lemma_from_code_of_code(OandaInstrumentName::UsdHkd);
        reveal_strlit("USD_HUF");
        assert(OandaInstrumentName::UsdHuf.spec_code() =~= "USD_HUF"@);
        Self::lemma_from_code_of_code(OandaInstrumentName::UsdHuf);
        reveal_strlit("USD_JPY");
        assert(OandaInstrumentName::UsdJpy.spec_code() =~= "USD_JPY"@);
        Self::lemma_from_code_of_code(OandaInstrumentName::UsdJpy);
    }

    /// The wire codes of these instrument names beginning with `U`, as OANDA names them: `USD_MXN`, `USD_NOK`, `USD_PLN`, `USD_SEK`, `USD_SGD`, `USD_THB`, `USD_TRY`, `USD_ZAR`.
    /// Each value has its code, and each code decodes to its value.
    #[verifier::spinoff_prover]
    pub proof fn lemma_wire_codes_u2()
        ensures
            OandaInstrumentName::UsdMxn.spec_code() == "USD_MXN"@,
            OandaInstrumentName::spec_from_code("USD_MXN"@) == Some(OandaInstrumentName::UsdMxn),
            OandaInstrumentName::UsdNok.spec_code() == "USD_NOK"@,
            OandaInstrumentName::spec_from_code("USD_NOK"@) == Some(OandaInstrumentName::UsdNok),
            OandaInstrumentName::UsdPln.spec_code() == "USD_PLN"@,
            OandaInstrumentName::spec_from_code("USD_PLN"@) == Some(OandaInstrumentName::UsdPln),
            OandaInstrumentName::UsdSek.spec_code() == "USD_SEK"@,
            OandaInstrumentName::spec_from_code("USD_SEK"@) == Some(OandaInstrumentName::UsdSek),
            OandaInstrumentName::UsdSgd.spec_code() == "USD_SGD"@,
            OandaInstrumentName::spec_from_code("USD_SGD"@) == Some(OandaInstrumentName::UsdSgd),
            OandaInstrumentName::UsdThb.spec_code() == "USD_THB"@,
            OandaInstrumentName::spec_from_code("USD_THB"@) == Some(OandaInstrumentName::UsdThb),
            OandaInstrumentName::UsdTry.spec_code() == "USD_TRY"@,
            OandaInstrumentName::spec_from_code("USD_TRY"@) == Some(OandaInstrumentName::UsdTry),
            OandaInstrumentName::UsdZar.spec_code() == "USD_ZAR"@,
            OandaInstrumentName::spec_from_code("USD_ZAR"@) == Some(OandaInstrumentName::UsdZar),
    {
        reveal_strlit("USD_MXN");
        assert(OandaInstrumentName::UsdMxn.spec_code() =~= "USD_MXN"@);
        Self::lemma_from_code_of_code(OandaInstrumentName::UsdMxn);
        reveal_strlit("USD_NOK");
        assert(OandaInstrumentName::UsdNok.spec_code() =~= "USD_NOK"@);
        Self::lemma_from_code_of_code(OandaInstrumentName::UsdNok);
        reveal_strlit("USD_PLN");
        assert(OandaInstrumentName::UsdPln.spec_code() =~= "USD_PLN"@);
        Self::lemma_from_code_of_code(OandaInstrumentName::UsdPln);
        reveal_strlit("USD_SEK");
        assert(OandaInstrumentName::UsdSek.spec_code() =~= "USD_SEK"@);
        Self::lemma_from_code_of_code(OandaInstrumentName::UsdSek);
        reveal_strlit("USD_SGD");
        assert(OandaInstrumentName::UsdSgd.spec_code() =~= "USD_SGD"@);
        Self::lemma_from_code_of_code(OandaInstrumentName::UsdSgd);
        reveal_strlit("USD_THB");
        assert(OandaInstrumentName::UsdThb.spec_code() =~= "USD_THB"@);
        Self::lemma_from_code_of_code(OandaInstrumentName::UsdThb);
        reveal_strlit("USD_TRY");
        assert(OandaInstrumentName::UsdTry.spec_code() =~= "USD_TRY"@);
        Self::lemma_from_code_of_code(OandaInstrumentName::UsdTry);
        reveal_strlit("USD_ZAR");
        assert(OandaInstrumentName::UsdZar.spec_code() =~= "USD_ZAR"@);
        Self::lemma_from_code_of_code(OandaInstrumentName::UsdZar);
    }

    /// The wire codes of these instrument names beginning with `W`, as OANDA names them: `WHEAT_USD`, `WTICO_USD`.
    /// Each value has its code, and each code decodes to its value.
    #[verifier::spinoff_prover]
    pub proof fn lemma_wire_codes_w()
        ensures
            OandaInstrumentName::WheatUsd.spec_code() == "WHEAT_USD"@,
            OandaInstrumentName::spec_from_code("WHEAT_USD"@) == Some(OandaInstrumentName::WheatUsd),
            OandaInstrumentName::WticoUsd.spec_code() == "WTICO_USD"@,
            OandaInstrumentName::spec_from_code("WTICO_USD"@) == Some(OandaInstrumentName::WticoUsd),
    {
        reveal_strlit("WHEAT_USD");
        assert(OandaInstrumentName::WheatUsd.spec_code() =~= "WHEAT_USD"@);
        Self::lemma_from_code_of_code(OandaInstrumentName::WheatUsd);
        reveal_strlit("WTICO_USD");
        assert(OandaInstrumentName::WticoUsd.spec_code() =~= "WTICO_USD"@);
        Self::lemma_from_code_of_code(OandaInstrumentName::WticoUsd);
    }

    /// The wire codes of these instrument names beginning with `X`, as OANDA names them: `XAG_AUD`, `XAG_CAD`, `XAG_CHF`, `XAG_EUR`, `XAG_GBP`, `XAG_HKD`, `XAG_JPY`, `XAG_NZD`.
    /// Each value has its code, and each code decodes to its value.
    #[verifier::spinoff_prover]
    pub proof fn lemma_wire_codes_x0()
        ensures
            OandaInstrumentName::XagAud.spec_code() == "XAG_AUD"@,
            OandaInstrumentName::spec_from_code("XAG_AUD"@) == Some(OandaInstrumentName::XagAud),
            OandaInstrumentName::XagCad.spec_code() == "XAG_CAD"@,
            OandaInstrumentName::spec_from_code("XAG_CAD"@) == Some(OandaInstrumentName::XagCad),
            OandaInstrumentName::XagChf.spec_code() == "XAG_CHF"@,
            OandaInstrumentName::spec_from_code("XAG_CHF"@) == Some(OandaInstrumentName::XagChf),
            OandaInstrumentName::XagEur.spec_code() == "XAG_EUR"@,
            OandaInstrumentName::spec_from_code("XAG_EUR"@) == Some(OandaInstrumentName::XagEur),
            OandaInstrumentName::XagGbp.spec_code() == "XAG_GBP"@,
            OandaInstrumentName::spec_from_code("XAG_GBP"@) == Some(OandaInstrumentName::XagGbp),
            OandaInstrumentName::XagHkd.spec_code() == "XAG_HKD"@,
            OandaInstrumentName::spec_from_code("XAG_HKD"@) == Some(OandaInstrumentName::XagHkd),
            OandaInstrumentName::XagJpy.spec_code() == "XAG_JPY"@,
            OandaInstrumentName::spec_from_code("XAG_JPY"@) == Some(OandaInstrumentName::XagJpy),
            OandaInstrumentName::XagNzd.spec_code() == "XAG_NZD"@,
            OandaInstrumentName::spec_from_code("XAG_NZD"@) == Some(OandaInstrumentName::XagNzd),
    {
        reveal_strlit("XAG_AUD");
        assert(OandaInstrumentName::XagAud.spec_code() =~= "XAG_AUD"@);
        Self::lemma_from_code_of_code(OandaInstrumentName::XagAud);
        reveal_strlit("XAG_CAD");
        assert(OandaInstrumentName::XagCad.spec_code() =~= "XAG_CAD"@);
        Self::lemma_from_code_of_code(OandaInstrumentName::XagCad);
        reveal_strlit("XAG_CHF");
        assert(OandaInstrumentName::XagChf.spec_code() =~= "XAG_CHF"@);
        Self::lemma_from_code_of_code(OandaInstrumentName::XagChf);
        reveal_strlit("XAG_EUR");
        assert(OandaInstrumentName::XagEur.spec_code() =~= "XAG_EUR"@);
        Self::lemma_from_code_of_code(OandaInstrumentName::XagEur);
        reveal_strlit("XAG_GBP");
        assert(OandaInstrumentName::XagGbp.spec_code() =~= "XAG_GBP"@);
        Self::lemma_from_code_of_code(OandaInstrumentName::XagGbp);
        reveal_strlit("XAG_HKD");
        assert(OandaInstrumentName::XagHkd.spec_code() =~= "XAG_HKD"@);
        Self::lemma_from_code_of_code(OandaInstrumentName::XagHkd);
        reveal_strlit("XAG_JPY");
        assert(OandaInstrumentName::XagJpy.spec_code() =~= "XAG_JPY"@);
        Self::lemma_from_code_of_code(OandaInstrumentName::XagJpy);
        reveal_strlit("XAG_NZD");
        assert(OandaInstrumentName::XagNzd.spec_code() =~= "XAG_NZD"@);
        Self::lemma_from_code_of_code(OandaInstrumentName::XagNzd);
    }

    /// The wire codes of these instrument names beginning with `X`, as OANDA names them: `XAG_SGD`, `XAG_USD`, `XAU_AUD`, `XAU_CAD`, `XAU_CHF`, `XAU_EUR`, `XAU_GBP`, `XAU_HKD`.
    /// Each value has its code, and each code decodes to its value.
    #[verifier::spinoff_prover]
    pub proof fn lemma_wire_codes_x1()
        ensures
            OandaInstrumentName::XagSgd.spec_code() == "XAG_SGD"@,
            OandaInstrumentName::spec_from_code("XAG_SGD"@) == Some(OandaInstrumentName::XagSgd),
            OandaInstrumentName::XagUsd.spec_code() == "XAG_USD"@,
            OandaInstrumentName::spec_from_code("XAG_USD"@) == Some(OandaInstrumentName::XagUsd),
            OandaInstrumentName::XauAud.spec_code() == "XAU_AUD"@,
            OandaInstrumentName::spec_from_code("XAU_AUD"@) == Some(OandaInstrumentName::XauAud),
            OandaInstrumentName::XauCad.spec_code() == "XAU_CAD"@,
            OandaInstrumentName::spec_from_code("XAU_CAD"@) == Some(OandaInstrumentName::XauCad),
            OandaInstrumentName::XauChf.spec_code() == "XAU_CHF"@,
            OandaInstrumentName::spec_from_code("XAU_CHF"@) == Some(OandaInstrumentName::XauChf),
            OandaInstrumentName::XauEur.spec_code() == "XAU_EUR"@,
            OandaInstrumentName::spec_from_code("XAU_EUR"@) == Some(OandaInstrumentName::XauEur),
            OandaInstrumentName::XauGbp.spec_code() == "XAU_GBP"@,
            OandaInstrumentName::spec_from_code("XAU_GBP"@) == Some(OandaInstrumentName::XauGbp),
            OandaInstrumentName::XauHkd.spec_code() == "XAU_HKD"@,
            OandaInstrumentName::spec_from_code("XAU_HKD"@) == Some(OandaInstrumentName::XauHkd),
    {
        reveal_strlit("XAG_SGD");
        assert(OandaInstrumentName::XagSgd.spec_code() =~= "XAG_SGD"@);
        Self::lemma_from_code_of_code(OandaInstrumentName::XagSgd);
        reveal_strlit("XAG_USD");
        assert(OandaInstrumentName::XagUsd.spec_code() =~= "XAG_USD"@);
        Self::lemma_from_code_of_code(OandaInstrumentName::XagUsd);
        reveal_strlit("XAU_AUD");
        assert(OandaInstrumentName::XauAud.spec_code() =~= "XAU_AUD"@);
        Self::lemma_from_code_of_code(OandaInstrumentName::XauAud);
        reveal_strlit("XAU_CAD");
        assert(OandaInstrumentName::XauCad.spec_code() =~= "XAU_CAD"@);
        Self::lemma_from_code_of_code(OandaInstrumentName::XauCad);
        reveal_strlit("XAU_CHF");
        assert(OandaInstrumentName::XauChf.spec_code() =~= "XAU_CHF"@);
        Self::lemma_from_code_of_code(OandaInstrumentName::XauChf);
        reveal_strlit("XAU_EUR");
        assert(OandaInstrumentName::XauEur.spec_code() =~= "XAU_EUR"@);
        Self::lemma_from_code_of_code(OandaInstrumentName::XauEur);
        reveal_strlit("XAU_GBP");
        assert(OandaInstrumentName::XauGbp.spec_code() =~= "XAU_GBP"@);
        Self::lemma_from_code_of_code(OandaInstrumentName::XauGbp);
        reveal_strlit("XAU_HKD");
        assert(OandaInstrumentName::XauHkd.spec_code() =~= "XAU_HKD"@);
        Self::lemma_from_code_of_code(OandaInstrumentName::XauHkd);
    }

    /// The wire codes of these instrument names beginning with `X`, as OANDA names them: `XAU_JPY`, `XAU_NZD`, `XAU_SGD`, `XAU_USD`, `XAU_XAG`, `XCU_USD`, `XPD_USD`, `XPT_USD`.
    /// Each value has its code, and each code decodes to its value.
    #[verifier::spinoff_prover]
    pub proof fn lemma_wire_codes_x2()
        ensures
            OandaInstrumentName::XauJpy.spec_code() == "XAU_JPY"@,
            OandaInstrumentName::spec_from_code("XAU_JPY"@) == Some(OandaInstrumentName::XauJpy),
            OandaInstrumentName::XauNzd.spec_code() == "XAU_NZD"@,
            OandaInstrumentName::spec_from_code("XAU_NZD"@) == Some(OandaInstrumentName::XauNzd),
            OandaInstrumentName::XauSgd.spec_code() == "XAU_SGD"@,
            OandaInstrumentName::spec_from_code("XAU_SGD"@) == Some(OandaInstrumentName::XauSgd),
            OandaInstrumentName::XauUsd.spec_code() == "XAU_USD"@,
            OandaInstrumentName::spec_from_code("XAU_USD"@) == Some(OandaInstrumentName::XauUsd),
            OandaInstrumentName::XauXag.spec_code() == "XAU_XAG"@,
            OandaInstrumentName::spec_from_code("XAU_XAG"@) == Some(OandaInstrumentName::XauXag),
            OandaInstrumentName::XcuUsd.spec_code() == "XCU_USD"@,
            OandaInstrumentName::spec_from_code("XCU_USD"@) == Some(OandaInstrumentName::XcuUsd),
            OandaInstrumentName::XpdUsd.spec_code() == "XPD_USD"@,
            OandaInstrumentName::spec_from_code("XPD_USD"@) == Some(OandaInstrumentName::XpdUsd),
            OandaInstrumentName::XptUsd.spec_code() == "XPT_USD"@,
            OandaInstrumentName::spec_from_code("XPT_USD"@) == Some(OandaInstrumentName::XptUsd),
    {
        reveal_strlit("XAU_JPY");
        assert(OandaInstrumentName::XauJpy.spec_code() =~= "XAU_JPY"@);
        Self::lemma_from_code_of_code(OandaInstrumentName::XauJpy);
        reveal_strlit("XAU_NZD");
        assert(OandaInstrumentName::XauNzd.spec_code() =~= "XAU_NZD"@);
        Self::lemma_from_code_of_code(OandaInstrumentName::XauNzd);
        reveal_strlit("XAU_SGD");
        assert(OandaInstrumentName::XauSgd.spec_code() =~= "XAU_SGD"@);
        Self::lemma_from_code_of_code(OandaInstrumentName::XauSgd);
        reveal_strlit("XAU_USD");
        assert(OandaInstrumentName::XauUsd.spec_code() =~= "XAU_USD"@);
        Self::lemma_from_code_of_code(OandaInstrumentName::XauUsd);
        reveal_strlit("XAU_XAG");
        assert(OandaInstrumentName::XauXag.spec_code() =~= "XAU_XAG"@);
        Self::lemma_from_code_of_code(OandaInstrumentName::XauXag);
        reveal_strlit("XCU_USD");
        assert(OandaInstrumentName::XcuUsd.spec_code() =~= "XCU_USD"@);
        Self::lemma_from_code_of_code(OandaInstrumentName::XcuUsd);
        reveal_strlit("XPD_USD");
        assert(OandaInstrumentName::XpdUsd.spec_code() =~= "XPD_USD"@);
        Self::lemma_from_code_of_code(OandaInstrumentName::XpdUsd);
        reveal_strlit("XPT_USD");
        assert(OandaInstrumentName::XptUsd.spec_code() =~= "XPT_USD"@);
        Self::lemma_from_code_of_code(OandaInstrumentName::XptUsd);
    }

    /// The wire codes of these instrument names beginning with `Z`, as OANDA names them: `ZAR_JPY`.
    /// Each value has its code, and each code decodes to its value.
    #[verifier::spinoff_prover]
    pub proof fn lemma_wire_codes_z()
        ensures
            OandaInstrumentName::ZarJpy.spec_code() == "ZAR_JPY"@,
            OandaInstrumentName::spec_from_code("ZAR_JPY"@) == Some(OandaInstrumentName::ZarJpy),
    {
        reveal_strlit("ZAR_JPY");
        assert(OandaInstrumentName::ZarJpy.spec_code() =~= "ZAR_JPY"@);
        Self::lemma_from_code_of_code(OandaInstrumentName::ZarJpy);
    }

}

impl OandaInstrumentType {
    /// The wire codes of the instrument types, as OANDA names them: `CURRENCY`, `CFD`, `METAL`.
    /// Each value has its code, and each code decodes to its value.
    pub proof fn lemma_wire_codes()
        ensures
            OandaInstrumentType::Currency.spec_code() == "CURRENCY"@,
            OandaInstrumentType::spec_from_code("CURRENCY"@) == Some(OandaInstrumentType::Currency),
            OandaInstrumentType::Cfd.spec_code() == "CFD"@,
            OandaInstrumentType::spec_from_code("CFD"@) == Some(OandaInstrumentType::Cfd),
            OandaInstrumentType::Metal.spec_code() == "METAL"@,
            OandaInstrumentType::spec_from_code("METAL"@) == Some(OandaInstrumentType::Metal),
    {
        reveal_strlit("CURRENCY");
        assert(OandaInstrumentType::Currency.spec_code() =~= "CURRENCY"@);
        Self::lemma_from_code_of_code(OandaInstrumentType::Currency);
        reveal_strlit("CFD");
        assert(OandaInstrumentType::Cfd.spec_code() =~= "CFD"@);
        Self::lemma_from_code_of_code(OandaInstrumentType::Cfd);
        reveal_strlit("METAL");
        assert(OandaInstrumentType::Metal.spec_code() =~= "METAL"@);
        Self::lemma_from_code_of_code(OandaInstrumentType::Metal);
    }

}

impl OandaGuaranteedStopLossOrderModeForInstrument {
    /// The wire codes of the guaranteed stop loss order modes, as OANDA names them: `DISABLED`, `ALLOWED`, `REQUIRED`.
    /// Each value has its code, and each code decodes to its value.
    pub proof fn lemma_wire_codes()
        ensures
            OandaGuaranteedStopLossOrderModeForInstrument::Disabled.spec_code() == "DISABLED"@,
            OandaGuaranteedStopLossOrderModeForInstrument::spec_from_code("DISABLED"@) == Some(OandaGuaranteedStopLossOrderModeForInstrument::Disabled),
            OandaGuaranteedStopLossOrderModeForInstrument::Allowed.spec_code() == "ALLOWED"@,
            OandaGuaranteedStopLossOrderModeForInstrument::spec_from_code("ALLOWED"@) == Some(OandaGuaranteedStopLossOrderModeForInstrument::Allowed),
            OandaGuaranteedStopLossOrderModeForInstrument::Required.spec_code() == "REQUIRED"@,
            OandaGuaranteedStopLossOrderModeForInstrument::spec_from_code("REQUIRED"@) == Some(OandaGuaranteedStopLossOrderModeForInstrument::Required),
    {
        reveal_strlit("DISABLED");
        assert(OandaGuaranteedStopLossOrderModeForInstrument::Disabled.spec_code() =~= "DISABLED"@);
        Self::lemma_from_code_of_code(OandaGuaranteedStopLossOrderModeForInstrument::Disabled);
        reveal_strlit("ALLOWED");
        assert(OandaGuaranteedStopLossOrderModeForInstrument::Allowed.spec_code() =~= "ALLOWED"@);
        Self::lemma_from_code_of_code(OandaGuaranteedStopLossOrderModeForInstrument::Allowed);
        reveal_strlit("REQUIRED");
        assert(OandaGuaranteedStopLossOrderModeForInstrument::Required.spec_code() =~= "REQUIRED"@);
        Self::lemma_from_code_of_code(OandaGuaranteedStopLossOrderModeForInstrument::Required);
    }

}

impl OandaDayOfWeek {
    /// The wire codes of the days of the week, as OANDA names them: `SUNDAY`, `MONDAY`, `TUESDAY`, `WEDNESDAY`, `THURSDAY`, `FRIDAY`, `SATURDAY`.
    /// Each value has its code, and each code decodes to its value.
    pub proof fn lemma_wire_codes()
        ensures
            OandaDayOfWeek::Sunday.spec_code() == "SUNDAY"@,
            OandaDayOfWeek::spec_from_code("SUNDAY"@) == Some(OandaDayOfWeek::Sunday),
            OandaDayOfWeek::Monday.spec_code() == "MONDAY"@,
            OandaDayOfWeek::spec_from_code("MONDAY"@) == Some(OandaDayOfWeek::Monday),
            OandaDayOfWeek::Tuesday.spec_code() == "TUESDAY"@,
            OandaDayOfWeek::spec_from_code("TUESDAY"@) == Some(OandaDayOfWeek::Tuesday),
            OandaDayOfWeek::Wednesday.spec_code() == "WEDNESDAY"@,
            OandaDayOfWeek::spec_from_code("WEDNESDAY"@) == Some(OandaDayOfWeek::Wednesday),
            OandaDayOfWeek::Thursday.spec_code() == "THURSDAY"@,
            OandaDayOfWeek::spec_from_code("THURSDAY"@) == Some(OandaDayOfWeek::Thursday),
            OandaDayOfWeek::Friday.spec_code() == "FRIDAY"@,
            OandaDayOfWeek::spec_from_code("FRIDAY"@) == Some(OandaDayOfWeek::Friday),
            OandaDayOfWeek::Saturday.spec_code() == "SATURDAY"@,
            OandaDayOfWeek::spec_from_code("SATURDAY"@) == Some(OandaDayOfWeek::Saturday),
    {
        reveal_strlit("SUNDAY");
        assert(OandaDayOfWeek::Sunday.spec_code() =~= "SUNDAY"@);
        Self::lemma_from_code_of_code(OandaDayOfWeek::Sunday);
        reveal_strlit("MONDAY");
        assert(OandaDayOfWeek::Monday.spec_code() =~= "MONDAY"@);
        Self::lemma_from_code_of_code(OandaDayOfWeek::Monday);
        reveal_strlit("TUESDAY");
        assert(OandaDayOfWeek::Tuesday.spec_code() =~= "TUESDAY"@);
        Self::lemma_from_code_of_code(OandaDayOfWeek::Tuesday);
        reveal_strlit("WEDNESDAY");
        assert(OandaDayOfWeek::Wednesday.spec_code() =~= "WEDNESDAY"@);
        Self::lemma_from_code_of_code(OandaDayOfWeek::Wednesday);
        reveal_strlit("THURSDAY");
        assert(OandaDayOfWeek::Thursday.spec_code() =~= "THURSDAY"@);
        Self::lemma_from_code_of_code(OandaDayOfWeek::Thursday);
        reveal_strlit("FRIDAY");
        assert(OandaDayOfWeek::Friday.spec_code() =~= "FRIDAY"@);
        Self::lemma_from_code_of_code(OandaDayOfWeek::Friday);
        reveal_strlit("SATURDAY");
        assert(OandaDayOfWeek::Saturday.spec_code() =~= "SATURDAY"@);
        Self::lemma_from_code_of_code(OandaDayOfWeek::Saturday);
    }

}

} // verus!
