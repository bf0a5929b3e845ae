//! The certificate payload: a keyed-map binary record decoded into a
//! typed certificate, tolerating unknown keys, plus the full token
//! pipeline from text to parsed envelope.

use vstd::prelude::*;

use crate::b45::{self, Base45Error};
use crate::cbor::{parse_head, parse_tstr, skip_value, spec_head, spec_skip, spec_tstr};
use crate::cwt::{parse_sign1, spec_parse_sign1, CwtError, Sign1, SpecSign1};
use crate::valuesets::{resolve, spec_resolve, EhnData, SpecValueSetEntry, ValueSetEntry};

verus! {

/// The fields a payload decode can report on, by their record or wire
/// name.
#[derive(Debug, Clone, Copy, PartialEq, Eq, Structural)]
pub enum DccField {
    Payload,
    Issuer,
    ExpirationTime,
    IssuedAt,
    HealthClaim,
    Cert,
    Vaccine,
    DateOfBirth,
    PersonName,
    Version,
    DiseaseAgent,
    VaccineProphylaxis,
    MedicinalProduct,
    Manufacturer,
    DoseNumber,
    SeriesDoseNumber,
    VaccinationDate,
    Country,
    CertIssuer,
    CertIdentifier,
    FirstName,
    GivenName,
    FirstNameTransliterated,
    GivenNameTransliterated,
}

impl DccField {
    /// The record or wire name of the field, for diagnostics.
    pub fn name(&self) -> &'static str {
        match self {
            DccField::Payload => "payload",
            DccField::Issuer => "issuer",
            DccField::ExpirationTime => "expiration_time",
            DccField::IssuedAt => "issued_at",
            DccField::HealthClaim => "health_claim",
            DccField::Cert => "cert",
            DccField::Vaccine => "v",
            DccField::DateOfBirth => "dob",
            DccField::PersonName => "nam",
            DccField::Version => "ver",
            DccField::DiseaseAgent => "tg",
            DccField::VaccineProphylaxis => "vp",
            DccField::MedicinalProduct => "mp",
            DccField::Manufacturer => "ma",
            DccField::DoseNumber => "dn",
            DccField::SeriesDoseNumber => "sd",
            DccField::VaccinationDate => "dt",
            DccField::Country => "co",
            DccField::CertIssuer => "is",
            DccField::CertIdentifier => "ci",
            DccField::FirstName => "fn",
            DccField::GivenName => "gn",
            DccField::FirstNameTransliterated => "fnt",
            DccField::GivenNameTransliterated => "gnt",
        }
    }
}

/// Errors of the payload decoder: a required field that is absent, or a
/// present field of the wrong shape. Unknown keys are never an error.
#[derive(Debug, Clone, Copy, PartialEq, Eq, Structural)]
pub enum DccError {
    MissingField(DccField),
    MalformedField(DccField),
}

/// A calendar date, as year, month and day.
#[derive(Debug, Clone, Copy, PartialEq, Eq, Structural)]
pub struct Date {
    pub year: u16,
    pub month: u8,
    pub day: u8,
}

/// Whether `y` is a leap year.
pub open spec fn spec_is_leap(y: int) -> bool {
    y % 4 == 0 && (y % 100 != 0 || y % 400 == 0)
}

/// The number of days of month `m` in year `y`.
pub open spec fn spec_days_in_month(y: int, m: int) -> int {
    if m == 2 {
        if spec_is_leap(y) {
            29
        } else {
            28
        }
    } else if m == 4 || m == 6 || m == 9 || m == 11 {
        30
    } else {
        31
    }
}

/// A well-formed calendar date: month 1-12, day within the month.
pub open spec fn spec_date_valid(y: int, m: int, d: int) -> bool {
    1 <= m <= 12 && 1 <= d <= spec_days_in_month(y, m)
}

/// The value of an ASCII digit, or `None` for any other byte.
pub open spec fn spec_digit(c: u8) -> Option<int> {
    if 48 <= c && c <= 57 {
        Some((c - 48) as int)
    } else {
        None
    }
}

/// The date written by a ten-byte `YYYY-MM-DD` text, where the date is
/// a well-formed calendar date; `None` for any other text.
pub open spec fn spec_parse_date(s: Seq<u8>) -> Option<Date> {
    if s.len() == 10 && s[4] == 45 && s[7] == 45 && spec_digit(s[0]) is Some && spec_digit(s[1])
        is Some && spec_digit(s[2]) is Some && spec_digit(s[3]) is Some && spec_digit(s[5])
        is Some && spec_digit(s[6]) is Some && spec_digit(s[8]) is Some && spec_digit(s[9])
        is Some {
        let y = spec_digit(s[0]).unwrap() * 1000 + spec_digit(s[1]).unwrap() * 100 + spec_digit(
            s[2],
        ).unwrap() * 10 + spec_digit(s[3]).unwrap();
        let m = spec_digit(s[5]).unwrap() * 10 + spec_digit(s[6]).unwrap();
        let d = spec_digit(s[8]).unwrap() * 10 + spec_digit(s[9]).unwrap();
        if spec_date_valid(y, m, d) {
            Some(Date { year: y as u16, month: m as u8, day: d as u8 })
        } else {
            None
        }
    } else {
        None
    }
}

/// Reads the value of one ASCII digit.
fn digit(c: u8) -> (r: Option<u16>)
    ensures
        r matches Some(v) ==> spec_digit(c) == Some(v as int) && v <= 9,
        r is None ==> spec_digit(c) is None,
{
    if 48 <= c && c <= 57 {
        Some((c - 48) as u16)
    } else {
        None
    }
}

/// Parses a `YYYY-MM-DD` text into a calendar date, exactly as
/// `spec_parse_date` describes it.
pub fn parse_date(s: &[u8]) -> (r: Option<Date>)
    ensures
        r == spec_parse_date(s@),
{
    if s.len() != 10 {
        return None;
    }
    if s[4] != 45 || s[7] != 45 {
        return None;
    }
    let d0 = match digit(s[0]) {
        Some(v) => v,
        None => {
            return None;
        },
    };
    let d1 = match digit(s[1]) {
        Some(v) => v,
        None => {
            return None;
        },
    };
    let d2 = match digit(s[2]) {
        Some(v) => v,
        None => {
            return None;
        },
    };
    let d3 = match digit(s[3]) {
        Some(v) => v,
        None => {
            return None;
        },
    };
    let d5 = match digit(s[5]) {
        Some(v) => v,
        None => {
            return None;
        },
    };
    let d6 = match digit(s[6]) {
        Some(v) => v,
        None => {
            return None;
        },
    };
    let d8 = match digit(s[8]) {
        Some(v) => v,
        None => {
            return None;
        },
    };
    let d9 = match digit(s[9]) {
        Some(v) => v,
        None => {
            return None;
        },
    };
    let y: u16 = d0 * 1000 + d1 * 100 + d2 * 10 + d3;
    let m: u8 = (d5 * 10 + d6) as u8;
    let d: u8 = (d8 * 10 + d9) as u8;
    let ok = if m < 1 || m > 12 {
        false
    } else {
        let dim: u8 = if m == 2 {
            let leap = y % 4 == 0 && (y % 100 != 0 || y % 400 == 0);
            if leap {
                29
            } else {
                28
            }
        } else if m == 4 || m == 6 || m == 9 || m == 11 {
            30
        } else {
            31
        };
        1 <= d && d <= dim
    };
    if ok {
        Some(Date { year: y, month: m, day: d })
    } else {
        None
    }
}

/// One vaccination event of the health claim.
#[derive(Debug, Clone, PartialEq, Eq)]
pub struct Vaccination {
    /// Disease or agent targeted.
    pub disease_agent_targeted: ValueSetEntry,
    /// Vaccine or prophylaxis.
    pub vaccine_or_prophylaxis: ValueSetEntry,
    /// Vaccine product.
    pub medicinal_product: ValueSetEntry,
    /// Marketing authorisation holder or manufacturer.
    pub manufacturer: ValueSetEntry,
    /// Number in a series of doses.
    pub dose_number: u32,
    /// The overall number of doses in the series.
    pub series_dose_number: u32,
    /// Date of vaccination.
    pub date: Date,
    /// State or country in which the vaccine was administered.
    pub country: Vec<u8>,
    /// Certificate issuer.
    pub issuer: Vec<u8>,
    /// Unique certificate identifier.
    pub cert_identifier: Vec<u8>,
}

/// The mathematical content of one vaccination event.
pub struct SpecVaccination {
    pub disease_agent_targeted: SpecValueSetEntry,
    pub vaccine_or_prophylaxis: SpecValueSetEntry,
    pub medicinal_product: SpecValueSetEntry,
    pub manufacturer: SpecValueSetEntry,
    pub dose_number: u32,
    pub series_dose_number: u32,
    pub date: Date,
    pub country: Seq<u8>,
    pub issuer: Seq<u8>,
    pub cert_identifier: Seq<u8>,
}

impl View for Vaccination {
    type V = SpecVaccination;

    open spec fn view(&self) -> SpecVaccination {
        SpecVaccination {
            disease_agent_targeted: self.disease_agent_targeted@,
            vaccine_or_prophylaxis: self.vaccine_or_prophylaxis@,
            medicinal_product: self.medicinal_product@,
            manufacturer: self.manufacturer@,
            dose_number: self.dose_number,
            series_dose_number: self.series_dose_number,
            date: self.date,
            country: self.country@,
            issuer: self.issuer@,
            cert_identifier: self.cert_identifier@,
        }
    }
}

/// The name of the certificate subject.
#[derive(Debug, Clone, PartialEq, Eq)]
pub struct Name {
    pub first_name: Vec<u8>,
    pub given_name: Vec<u8>,
    pub first_name_transliterated: Vec<u8>,
    pub given_name_transliterated: Vec<u8>,
}

/// The mathematical content of a subject name.
pub struct SpecName {
    pub first_name: Seq<u8>,
    pub given_name: Seq<u8>,
    pub first_name_transliterated: Seq<u8>,
    pub given_name_transliterated: Seq<u8>,
}

impl View for Name {
    type V = SpecName;

    open spec fn view(&self) -> SpecName {
        SpecName {
            first_name: self.first_name@,
            given_name: self.given_name@,
            first_name_transliterated: self.first_name_transliterated@,
            given_name_transliterated: self.given_name_transliterated@,
        }
    }
}

/// The certificate record inside the health claim.
#[derive(Debug, Clone, PartialEq, Eq)]
pub struct DigitalCovidCertificate {
    pub vaccine: Vec<Vaccination>,
    pub date_of_birth: Date,
    pub name: Name,
    pub version: Vec<u8>,
}

/// The mathematical content of the certificate record.
pub struct SpecDigitalCovidCertificate {
    pub vaccine: Seq<SpecVaccination>,
    pub date_of_birth: Date,
    pub name: SpecName,
    pub version: Seq<u8>,
}

impl View for DigitalCovidCertificate {
    type V = SpecDigitalCovidCertificate;

    open spec fn view(&self) -> SpecDigitalCovidCertificate {
        SpecDigitalCovidCertificate {
            vaccine: self.vaccine@.map_values(|v: Vaccination| v@),
            date_of_birth: self.date_of_birth,
            name: self.name@,
            version: self.version@,
        }
    }
}

/// The health-claim substructure of the payload.
#[derive(Debug, Clone, PartialEq, Eq)]
pub struct HealthClaim {
    pub cert: DigitalCovidCertificate,
}

/// The mathematical content of a health claim.
pub struct SpecHealthClaim {
    pub cert: SpecDigitalCovidCertificate,
}

impl View for HealthClaim {
    type V = SpecHealthClaim;

    open spec fn view(&self) -> SpecHealthClaim {
        SpecHealthClaim { cert: self.cert@ }
    }
}

/// The typed certificate payload: issuer, expiration and issue times as
/// seconds since the epoch, and the health claim.
#[derive(Debug, Clone, PartialEq, Eq)]
pub struct CertPayload {
    pub issuer: Vec<u8>,
    pub expiration_time: u64,
    pub issued_at: u64,
    pub health_claim: HealthClaim,
}

/// The mathematical content of a certificate payload.
pub struct SpecCertPayload {
    pub issuer: Seq<u8>,
    pub expiration_time: u64,
    pub issued_at: u64,
    pub health_claim: SpecHealthClaim,
}

impl View for CertPayload {
    type V = SpecCertPayload;

    open spec fn view(&self) -> SpecCertPayload {
        SpecCertPayload {
            issuer: self.issuer@,
            expiration_time: self.expiration_time,
            issued_at: self.issued_at,
            health_claim: self.health_claim@,
        }
    }
}

/// The optional byte-string content of an optional buffer.
pub open spec fn vob(o: Option<Vec<u8>>) -> Option<Seq<u8>> {
    match o {
        Some(v) => Some(v@),
        None => None,
    }
}

/// The mathematical content of an optional coded-value entry.
pub open spec fn vovse(o: Option<ValueSetEntry>) -> Option<SpecValueSetEntry> {
    match o {
        Some(v) => Some(v@),
        None => None,
    }
}

/// The mathematical content of an optional subject name.
pub open spec fn voname(o: Option<Name>) -> Option<SpecName> {
    match o {
        Some(v) => Some(v@),
        None => None,
    }
}

/// The mathematical content of an optional vaccination list.
pub open spec fn vovacc(o: Option<Vec<Vaccination>>) -> Option<Seq<SpecVaccination>> {
    match o {
        Some(v) => Some(v@.map_values(|x: Vaccination| x@)),
        None => None,
    }
}

/// The mathematical content of an optional certificate record.
pub open spec fn vodcc(o: Option<DigitalCovidCertificate>) -> Option<
    SpecDigitalCovidCertificate,
> {
    match o {
        Some(v) => Some(v@),
        None => None,
    }
}

/// The mathematical content of an optional health claim.
pub open spec fn vohc(o: Option<HealthClaim>) -> Option<SpecHealthClaim> {
    match o {
        Some(v) => Some(v@),
        None => None,
    }
}

/// The slots of a vaccination record while its map is being read.
pub struct SpecVaccSlots {
    pub tg: Option<SpecValueSetEntry>,
    pub vp: Option<SpecValueSetEntry>,
    pub mp: Option<SpecValueSetEntry>,
    pub ma: Option<SpecValueSetEntry>,
    pub dn: Option<u32>,
    pub sd: Option<u32>,
    pub dt: Option<Date>,
    pub co: Option<Seq<u8>>,
    pub is_: Option<Seq<u8>>,
    pub ci: Option<Seq<u8>>,
}

/// Reads `n` entries of a vaccination map from `i`: known keys fill
/// their slot (a later duplicate overwrites), unknown keys and their
/// values are skipped.
pub open spec fn spec_vacc_entries(
    s: Seq<u8>,
    i: int,
    n: nat,
    acc: SpecVaccSlots,
    ehn: EhnData,
) -> Result<(SpecVaccSlots, int), DccError>
    decreases s.len() - i, n,
{
    if n == 0 {
        Ok((acc, i))
    } else {
        match spec_head(s, i) {
            None => Err(DccError::MalformedField(DccField::Vaccine)),
            Some((kmaj, kval, j)) => {
                if kmaj == 3 && kval == 2 && j + 2 <= s.len() && s[j] == 116 && s[j + 1] == 103 {
                    match spec_tstr(s, j + 2) {
                        None => Err(DccError::MalformedField(DccField::DiseaseAgent)),
                        Some((code, next)) => if i < next && next <= s.len() {
                            spec_vacc_entries(
                                s,
                                next,
                                (n - 1) as nat,
                                SpecVaccSlots {
                                    tg: Some(
                                        SpecValueSetEntry {
                                            key: code,
                                            value: spec_resolve(ehn.disease_agent_targeted, code),
                                        },
                                    ),
                                    ..acc
                                },
                                ehn,
                            )
                        } else {
                            Err(DccError::MalformedField(DccField::Vaccine))
                        },
                    }
                } else if kmaj == 3 && kval == 2 && j + 2 <= s.len() && s[j] == 118 && s[j + 1]
                    == 112 {
                    match spec_tstr(s, j + 2) {
                        None => Err(DccError::MalformedField(DccField::VaccineProphylaxis)),
                        Some((code, next)) => if i < next && next <= s.len() {
                            spec_vacc_entries(
                                s,
                                next,
                                (n - 1) as nat,
                                SpecVaccSlots {
                                    vp: Some(
                                        SpecValueSetEntry {
                                            key: code,
                                            value: spec_resolve(ehn.vaccine_prophylaxis, code),
                                        },
                                    ),
                                    ..acc
                                },
                                ehn,
                            )
                        } else {
                            Err(DccError::MalformedField(DccField::Vaccine))
                        },
                    }
                } else if kmaj == 3 && kval == 2 && j + 2 <= s.len() && s[j] == 109 && s[j + 1]
                    == 112 {
                    match spec_tstr(s, j + 2) {
                        None => Err(DccError::MalformedField(DccField::MedicinalProduct)),
                        Some((code, next)) => if i < next && next <= s.len() {
                            spec_vacc_entries(
                                s,
                                next,
                                (n - 1) as nat,
                                SpecVaccSlots {
                                    mp: Some(
                                        SpecValueSetEntry {
                                            key: code,
                                            value: spec_resolve(
                                                ehn.vaccine_medicinal_product,
                                                code,
                                            ),
                                        },
                                    ),
                                    ..acc
                                },
                                ehn,
                            )
                        } else {
                            Err(DccError::MalformedField(DccField::Vaccine))
                        },
                    }
                } else if kmaj == 3 && kval == 2 && j + 2 <= s.len() && s[j] == 109 && s[j + 1]
                    == 97 {
                    match spec_tstr(s, j + 2) {
                        None => Err(DccError::MalformedField(DccField::Manufacturer)),
                        Some((code, next)) => if i < next && next <= s.len() {
                            spec_vacc_entries(
                                s,
                                next,
                                (n - 1) as nat,
                                SpecVaccSlots {
                                    ma: Some(
                                        SpecValueSetEntry {
                                            key: code,
                                            value: spec_resolve(ehn.vaccine_mah_manf, code),
                                        },
                                    ),
                                    ..acc
                                },
                                ehn,
                            )
                        } else {
                            Err(DccError::MalformedField(DccField::Vaccine))
                        },
                    }
                } else if kmaj == 3 && kval == 2 && j + 2 <= s.len() && s[j] == 100 && s[j + 1]
                    == 110 {
                    match spec_head(s, j + 2) {
                        None => Err(DccError::MalformedField(DccField::DoseNumber)),
                        Some((vm, vv, next)) => if vm != 0 || vv >= 4294967296 {
                            Err(DccError::MalformedField(DccField::DoseNumber))
                        } else if i < next && next <= s.len() {
                            spec_vacc_entries(
                                s,
                                next,
                                (n - 1) as nat,
                                SpecVaccSlots { dn: Some(vv as u32), ..acc },
                                ehn,
                            )
                        } else {
                            Err(DccError::MalformedField(DccField::Vaccine))
                        },
                    }
                } else if kmaj == 3 && kval == 2 && j + 2 <= s.len() && s[j] == 115 && s[j + 1]
                    == 100 {
                    match spec_head(s, j + 2) {
                        None => Err(DccError::MalformedField(DccField::SeriesDoseNumber)),
                        Some((vm, vv, next)) => if vm != 0 || vv >= 4294967296 {
                            Err(DccError::MalformedField(DccField::SeriesDoseNumber))
                        } else if i < next && next <= s.len() {
                            spec_vacc_entries(
                                s,
                                next,
                                (n - 1) as nat,
                                SpecVaccSlots { sd: Some(vv as u32), ..acc },
                                ehn,
                            )
                        } else {
                            Err(DccError::MalformedField(DccField::Vaccine))
                        },
                    }
                } else if kmaj == 3 && kval == 2 && j + 2 <= s.len() && s[j] == 100 && s[j + 1]
                    == 116 {
                    match spec_tstr(s, j + 2) {
                        None => Err(DccError::MalformedField(DccField::VaccinationDate)),
                        Some((txt, next)) => match spec_parse_date(txt) {
                            None => Err(DccError::MalformedField(DccField::VaccinationDate)),
                            Some(dt) => if i < next && next <= s.len() {
                                spec_vacc_entries(
                                    s,
                                    next,
                                    (n - 1) as nat,
                                    SpecVaccSlots { dt: Some(dt), ..acc },
                                    ehn,
                                )
                            } else {
                                Err(DccError::MalformedField(DccField::Vaccine))
                            },
                        },
                    }
                } else if kmaj == 3 && kval == 2 && j + 2 <= s.len() && s[j] == 99 && s[j + 1]
                    == 111 {
                    match spec_tstr(s, j + 2) {
                        None => Err(DccError::MalformedField(DccField::Country)),
                        Some((txt, next)) => if i < next && next <= s.len() {
                            spec_vacc_entries(
                                s,
                                next,
                                (n - 1) as nat,
                                SpecVaccSlots { co: Some(txt), ..acc },
                                ehn,
                            )
                        } else {
                            Err(DccError::MalformedField(DccField::Vaccine))
                        },
                    }
                } else if kmaj == 3 && kval == 2 && j + 2 <= s.len() && s[j] == 105 && s[j + 1]
                    == 115 {
                    match spec_tstr(s, j + 2) {
                        None => Err(DccError::MalformedField(DccField::CertIssuer)),
                        Some((txt, next)) => if i < next && next <= s.len() {
                            spec_vacc_entries(
                                s,
                                next,
                                (n - 1) as nat,
                                SpecVaccSlots { is_: Some(txt), ..acc },
                                ehn,
                            )
                        } else {
                            Err(DccError::MalformedField(DccField::Vaccine))
                        },
                    }
                } else if kmaj == 3 && kval == 2 && j + 2 <= s.len() && s[j] == 99 && s[j + 1]
                    == 105 {
                    match spec_tstr(s, j + 2) {
                        None => Err(DccError::MalformedField(DccField::CertIdentifier)),
                        Some((txt, next)) => if i < next && next <= s.len() {
                            spec_vacc_entries(
                                s,
                                next,
                                (n - 1) as nat,
                                SpecVaccSlots { ci: Some(txt), ..acc },
                                ehn,
                            )
                        } else {
                            Err(DccError::MalformedField(DccField::Vaccine))
                        },
                    }
                } else {
                    match spec_skip(s, i) {
                        None => Err(DccError::MalformedField(DccField::Vaccine)),
                        Some(k1) => match spec_skip(s, k1) {
                            None => Err(DccError::MalformedField(DccField::Vaccine)),
                            Some(k2) => if i < k2 && k2 <= s.len() {
                                spec_vacc_entries(s, k2, (n - 1) as nat, acc, ehn)
                            } else {
                                Err(DccError::MalformedField(DccField::Vaccine))
                            },
                        },
                    }
                }
            },
        }
    }
}

/// The vaccination record at `i`: a map whose required fields are the
/// four coded values, the two dose numbers, the date, the country, the
/// issuer and the identifier, promoted in that order; unknown keys are
/// ignored.
pub open spec fn spec_decode_vacc(s: Seq<u8>, i: int, ehn: EhnData) -> Result<
    (SpecVaccination, int),
    DccError,
>
    decreases s.len() - i, 0nat,
{
    match spec_head(s, i) {
        None => Err(DccError::MalformedField(DccField::Vaccine)),
        Some((m, n, j)) => if m != 5 || j <= i {
            Err(DccError::MalformedField(DccField::Vaccine))
        } else {
            match spec_vacc_entries(
                s,
                j,
                n,
                SpecVaccSlots {
                    tg: None,
                    vp: None,
                    mp: None,
                    ma: None,
                    dn: None,
                    sd: None,
                    dt: None,
                    co: None,
                    is_: None,
                    ci: None,
                },
                ehn,
            ) {
                Err(e) => Err(e),
                Ok((slots, end)) => match slots.tg {
                    None => Err(DccError::MissingField(DccField::DiseaseAgent)),
                    Some(tg) => match slots.vp {
                        None => Err(DccError::MissingField(DccField::VaccineProphylaxis)),
                        Some(vp) => match slots.mp {
                            None => Err(DccError::MissingField(DccField::MedicinalProduct)),
                            Some(mp) => match slots.ma {
                                None => Err(DccError::MissingField(DccField::Manufacturer)),
                                Some(ma) => match slots.dn {
                                    None => Err(DccError::MissingField(DccField::DoseNumber)),
                                    Some(dn) => match slots.sd {
                                        None => Err(
                                            DccError::MissingField(DccField::SeriesDoseNumber),
                                        ),
                                        Some(sd) => match slots.dt {
                                            None => Err(
                                                DccError::MissingField(DccField::VaccinationDate),
                                            ),
                                            Some(dt) => match slots.co {
                                                None => Err(
                                                    DccError::MissingField(DccField::Country),
                                                ),
                                                Some(co) => match slots.is_ {
                                                    None => Err(
                                                        DccError::MissingField(
                                                            DccField::CertIssuer,
                                                        ),
                                                    ),
                                                    Some(is_) => match slots.ci {
                                                        None => Err(
                                                            DccError::MissingField(
                                                                DccField::CertIdentifier,
                                                            ),
                                                        ),
                                                        Some(ci) => Ok(
                                                            (
                                                                SpecVaccination {
                                                                    disease_agent_targeted: tg,
                                                                    vaccine_or_prophylaxis: vp,
                                                                    medicinal_product: mp,
                                                                    manufacturer: ma,
                                                                    dose_number: dn,
                                                                    series_dose_number: sd,
                                                                    date: dt,
                                                                    country: co,
                                                                    issuer: is_,
                                                                    cert_identifier: ci,
                                                                },
                                                                end,
                                                            ),
                                                        ),
                                                    },
                                                },
                                            },
                                        },
                                    },
                                },
                            },
                        },
                    },
                },
            }
        },
    }
}

/// The slots of a vaccination record while its map is being read.
pub struct VaccSlots {
    pub tg: Option<ValueSetEntry>,
    pub vp: Option<ValueSetEntry>,
    pub mp: Option<ValueSetEntry>,
    pub ma: Option<ValueSetEntry>,
    pub dn: Option<u32>,
    pub sd: Option<u32>,
    pub dt: Option<Date>,
    pub co: Option<Vec<u8>>,
    pub is_: Option<Vec<u8>>,
    pub ci: Option<Vec<u8>>,
}

impl View for VaccSlots {
    type V = SpecVaccSlots;

    open spec fn view(&self) -> SpecVaccSlots {
        SpecVaccSlots {
            tg: vovse(self.tg),
            vp: vovse(self.vp),
            mp: vovse(self.mp),
            ma: vovse(self.ma),
            dn: self.dn,
            sd: self.sd,
            dt: self.dt,
            co: vob(self.co),
            is_: vob(self.is_),
            ci: vob(self.ci),
        }
    }
}

/// The empty vaccination slots.
pub open spec fn spec_vacc_slots_empty() -> SpecVaccSlots {
    SpecVaccSlots {
        tg: None,
        vp: None,
        mp: None,
        ma: None,
        dn: None,
        sd: None,
        dt: None,
        co: None,
        is_: None,
        ci: None,
    }
}

/// Reads `n` vaccination-map entries, exactly as `spec_vacc_entries`
/// describes them.
#[verifier::rlimit(100)]
fn vacc_entries(s: &[u8], i: usize, n: u64, ehn: &EhnData) -> (r: Result<
    (VaccSlots, usize),
    DccError,
>)
    requires
        i <= s@.len(),
    ensures
        r matches Ok(p) ==> spec_vacc_entries(s@, i as int, n as nat, spec_vacc_slots_empty(), *ehn)
            == Ok::<(SpecVaccSlots, int), DccError>((p.0@, p.1 as int)) && i <= p.1 <= s@.len(),
        r matches Err(e) ==> spec_vacc_entries(s@, i as int, n as nat, spec_vacc_slots_empty(), *ehn)
            == Err::<(SpecVaccSlots, int), DccError>(e),
{
    let mut slots = VaccSlots {
        tg: None,
        vp: None,
        mp: None,
        ma: None,
        dn: None,
        sd: None,
        dt: None,
        co: None,
        is_: None,
        ci: None,
    };
    let mut cur = i;
    let mut c: u64 = 0;
    while c < n
        invariant
            i <= cur <= s@.len(),
            c <= n,
            spec_vacc_entries(s@, i as int, n as nat, spec_vacc_slots_empty(), *ehn)
                == spec_vacc_entries(s@, cur as int, (n - c) as nat, slots@, *ehn),
        decreases n - c,
    {
        let (kmaj, kval, j) = match parse_head(s, cur) {
            Some(h) => h,
            None => {
                return Err(DccError::MalformedField(DccField::Vaccine));
            },
        };
        if kmaj == 3 && kval == 2 && s.len() - j >= 2 && s[j] == 116 && s[j + 1] == 103 {
            match parse_tstr(s, j + 2) {
                None => {
                    return Err(DccError::MalformedField(DccField::DiseaseAgent));
                },
                Some((code, next)) => {
                    slots.tg = Some(resolve(&ehn.disease_agent_targeted, code));
                    cur = next;
                    c = c + 1;
                },
            }
        } else if kmaj == 3 && kval == 2 && s.len() - j >= 2 && s[j] == 118 && s[j + 1] == 112 {
            match parse_tstr(s, j + 2) {
                None => {
                    return Err(DccError::MalformedField(DccField::VaccineProphylaxis));
                },
                Some((code, next)) => {
                    slots.vp = Some(resolve(&ehn.vaccine_prophylaxis, code));
                    cur = next;
                    c = c + 1;
                },
            }
        } else if kmaj == 3 && kval == 2 && s.len() - j >= 2 && s[j] == 109 && s[j + 1] == 112 {
            match parse_tstr(s, j + 2) {
                None => {
                    return Err(DccError::MalformedField(DccField::MedicinalProduct));
                },
                Some((code, next)) => {
                    slots.mp = Some(resolve(&ehn.vaccine_medicinal_product, code));
                    cur = next;
                    c = c + 1;
                },
            }
        } else if kmaj == 3 && kval == 2 && s.len() - j >= 2 && s[j] == 109 && s[j + 1] == 97 {
            match parse_tstr(s, j + 2) {
                None => {
                    return Err(DccError::MalformedField(DccField::Manufacturer));
                },
                Some((code, next)) => {
                    slots.ma = Some(resolve(&ehn.vaccine_mah_manf, code));
                    cur = next;
                    c = c + 1;
                },
            }
        } else if kmaj == 3 && kval == 2 && s.len() - j >= 2 && s[j] == 100 && s[j + 1] == 110 {
            match parse_head(s, j + 2) {
                None => {
                    return Err(DccError::MalformedField(DccField::DoseNumber));
                },
                Some((vm, vv, next)) => {
                    if vm != 0 || vv >= 4294967296 {
                        return Err(DccError::MalformedField(DccField::DoseNumber));
                    }
                    slots.dn = Some(vv as u32);
                    cur = next;
                    c = c + 1;
                },
            }
        } else if kmaj == 3 && kval == 2 && s.len() - j >= 2 && s[j] == 115 && s[j + 1] == 100 {
            match parse_head(s, j + 2) {
                None => {
                    return Err(DccError::MalformedField(DccField::SeriesDoseNumber));
                },
                Some((vm, vv, next)) => {
                    if vm != 0 || vv >= 4294967296 {
                        return Err(DccError::MalformedField(DccField::SeriesDoseNumber));
                    }
                    slots.sd = Some(vv as u32);
                    cur = next;
                    c = c + 1;
                },
            }
        } else if kmaj == 3 && kval == 2 && s.len() - j >= 2 && s[j] == 100 && s[j + 1] == 116 {
            match parse_tstr(s, j + 2) {
                None => {
                    return Err(DccError::MalformedField(DccField::VaccinationDate));
                },
                Some((txt, next)) => match parse_date(txt.as_slice()) {
                    None => {
                        return Err(DccError::MalformedField(DccField::VaccinationDate));
                    },
                    Some(dt) => {
                        slots.dt = Some(dt);
                        cur = next;
                        c = c + 1;
                    },
                },
            }
        } else if kmaj == 3 && kval == 2 && s.len() - j >= 2 && s[j] == 99 && s[j + 1] == 111 {
            match parse_tstr(s, j + 2) {
                None => {
                    return Err(DccError::MalformedField(DccField::Country));
                },
                Some((txt, next)) => {
                    slots.co = Some(txt);
                    cur = next;
                    c = c + 1;
                },
            }
        } else if kmaj == 3 && kval == 2 && s.len() - j >= 2 && s[j] == 105 && s[j + 1] == 115 {
            match parse_tstr(s, j + 2) {
                None => {
                    return Err(DccError::MalformedField(DccField::CertIssuer));
                },
                Some((txt, next)) => {
                    slots.is_ = Some(txt);
                    cur = next;
                    c = c + 1;
                },
            }
        } else if kmaj == 3 && kval == 2 && s.len() - j >= 2 && s[j] == 99 && s[j + 1] == 105 {
            match parse_tstr(s, j + 2) {
                None => {
                    return Err(DccError::MalformedField(DccField::CertIdentifier));
                },
                Some((txt, next)) => {
                    slots.ci = Some(txt);
                    cur = next;
                    c = c + 1;
                },
            }
        } else {
            let k1 = match skip_value(s, cur) {
                Some(k) => k,
                None => {
                    return Err(DccError::MalformedField(DccField::Vaccine));
                },
            };
            let k2 = match skip_value(s, k1) {
                Some(k) => k,
                None => {
                    return Err(DccError::MalformedField(DccField::Vaccine));
                },
            };
            cur = k2;
            c = c + 1;
        }
    }
    Ok((slots, cur))
}

/// Decodes the vaccination record at `i`, exactly as `spec_decode_vacc`
/// describes it.
pub fn decode_vaccination(s: &[u8], i: usize, ehn: &EhnData) -> (r: Result<
    (Vaccination, usize),
    DccError,
>)
    ensures
        r matches Ok(p) ==> spec_decode_vacc(s@, i as int, *ehn) == Ok::<
            (SpecVaccination, int),
            DccError,
        >((p.0@, p.1 as int)) && i < p.1 <= s@.len(),
        r matches Err(e) ==> spec_decode_vacc(s@, i as int, *ehn) == Err::<
            (SpecVaccination, int),
            DccError,
        >(e),
{
    let (m, n, j) = match parse_head(s, i) {
        Some(h) => h,
        None => {
            return Err(DccError::MalformedField(DccField::Vaccine));
        },
    };
    if m != 5 {
        return Err(DccError::MalformedField(DccField::Vaccine));
    }
    let (slots, end) = match vacc_entries(s, j, n, ehn) {
        Ok(p) => p,
        Err(e) => {
            return Err(e);
        },
    };
    let tg = match slots.tg {
        Some(x) => x,
        None => {
            return Err(DccError::MissingField(DccField::DiseaseAgent));
        },
    };
    let vp = match slots.vp {
        Some(x) => x,
        None => {
            return Err(DccError::MissingField(DccField::VaccineProphylaxis));
        },
    };
    let mp = match slots.mp {
        Some(x) => x,
        None => {
            return Err(DccError::MissingField(DccField::MedicinalProduct));
        },
    };
    let ma = match slots.ma {
        Some(x) => x,
        None => {
            return Err(DccError::MissingField(DccField::Manufacturer));
        },
    };
    let dn = match slots.dn {
        Some(x) => x,
        None => {
            return Err(DccError::MissingField(DccField::DoseNumber));
        },
    };
    let sd = match slots.sd {
        Some(x) => x,
        None => {
            return Err(DccError::MissingField(DccField::SeriesDoseNumber));
        },
    };
    let dt = match slots.dt {
        Some(x) => x,
        None => {
            return Err(DccError::MissingField(DccField::VaccinationDate));
        },
    };
    let co = match slots.co {
        Some(x) => x,
        None => {
            return Err(DccError::MissingField(DccField::Country));
        },
    };
    let is_ = match slots.is_ {
        Some(x) => x,
        None => {
            return Err(DccError::MissingField(DccField::CertIssuer));
        },
    };
    let ci = match slots.ci {
        Some(x) => x,
        None => {
            return Err(DccError::MissingField(DccField::CertIdentifier));
        },
    };
    Ok(
        (
            Vaccination {
                disease_agent_targeted: tg,
                vaccine_or_prophylaxis: vp,
                medicinal_product: mp,
                manufacturer: ma,
                dose_number: dn,
                series_dose_number: sd,
                date: dt,
                country: co,
                issuer: is_,
                cert_identifier: ci,
            },
            end,
        ),
    )
}

/// Reads `n` vaccination records in a row from `i`.
pub open spec fn spec_vacc_items(
    s: Seq<u8>,
    i: int,
    n: nat,
    acc: Seq<SpecVaccination>,
    ehn: EhnData,
) -> Result<(Seq<SpecVaccination>, int), DccError>
    decreases s.len() - i, n,
{
    if n == 0 {
        Ok((acc, i))
    } else {
        match spec_decode_vacc(s, i, ehn) {
            Err(e) => Err(e),
            Ok((v, next)) => if i < next && next <= s.len() {
                spec_vacc_items(s, next, (n - 1) as nat, acc.push(v), ehn)
            } else {
                Err(DccError::MalformedField(DccField::Vaccine))
            },
        }
    }
}

/// Decodes `n` vaccination records in a row, exactly as
/// `spec_vacc_items` describes them.
fn vacc_items(s: &[u8], i: usize, n: u64, ehn: &EhnData) -> (r: Result<
    (Vec<Vaccination>, usize),
    DccError,
>)
    requires
        i <= s@.len(),
    ensures
        r matches Ok(p) ==> spec_vacc_items(s@, i as int, n as nat, Seq::empty(), *ehn) == Ok::<
            (Seq<SpecVaccination>, int),
            DccError,
        >((p.0@.map_values(|x: Vaccination| x@), p.1 as int)) && i <= p.1 <= s@.len(),
        r matches Err(e) ==> spec_vacc_items(s@, i as int, n as nat, Seq::empty(), *ehn) == Err::<
            (Seq<SpecVaccination>, int),
            DccError,
        >(e),
{
    let mut out: Vec<Vaccination> = Vec::new();
    let mut cur = i;
    let mut c: u64 = 0;
    proof {
        assert(out@.map_values(|x: Vaccination| x@) =~= Seq::<SpecVaccination>::empty());
    }
    while c < n
        invariant
            i <= cur <= s@.len(),
            c <= n,
            spec_vacc_items(s@, i as int, n as nat, Seq::empty(), *ehn) == spec_vacc_items(
                s@,
                cur as int,
                (n - c) as nat,
                out@.map_values(|x: Vaccination| x@),
                *ehn,
            ),
        decreases n - c,
    {
        match decode_vaccination(s, cur, ehn) {
            Err(e) => {
                return Err(e);
            },
            Ok((v, next)) => {
                let ghost old_out = out@;
                out.push(v);
                proof {
                    assert(out@.map_values(|x: Vaccination| x@) =~= old_out.map_values(
                        |x: Vaccination| x@,
                    ).push(v@));
                }
                cur = next;
                c = c + 1;
            },
        }
    }
    Ok((out, cur))
}

/// The slots of a subject name while its map is being read.
pub struct SpecNameSlots {
    pub fn_: Option<Seq<u8>>,
    pub gn: Option<Seq<u8>>,
    pub fnt: Option<Seq<u8>>,
    pub gnt: Option<Seq<u8>>,
}

/// Reads `n` entries of a subject-name map from `i`: the four
/// transliterated and plain name parts fill their slots, unknown keys
/// are skipped.
pub open spec fn spec_name_entries(s: Seq<u8>, i: int, n: nat, acc: SpecNameSlots) -> Result<
    (SpecNameSlots, int),
    DccError,
>
    decreases s.len() - i, n,
{
    if n == 0 {
        Ok((acc, i))
    } else {
        match spec_head(s, i) {
            None => Err(DccError::MalformedField(DccField::PersonName)),
            Some((kmaj, kval, j)) => {
                if kmaj == 3 && kval == 2 && j + 2 <= s.len() && s[j] == 102 && s[j + 1] == 110 {
                    match spec_tstr(s, j + 2) {
                        None => Err(DccError::MalformedField(DccField::FirstName)),
                        Some((txt, next)) => if i < next && next <= s.len() {
                            spec_name_entries(
                                s,
                                next,
                                (n - 1) as nat,
                                SpecNameSlots { fn_: Some(txt), ..acc },
                            )
                        } else {
                            Err(DccError::MalformedField(DccField::PersonName))
                        },
                    }
                } else if kmaj == 3 && kval == 2 && j + 2 <= s.len() && s[j] == 103 && s[j + 1]
                    == 110 {
                    match spec_tstr(s, j + 2) {
                        None => Err(DccError::MalformedField(DccField::GivenName)),
                        Some((txt, next)) => if i < next && next <= s.len() {
                            spec_name_entries(
                                s,
                                next,
                                (n - 1) as nat,
                                SpecNameSlots { gn: Some(txt), ..acc },
                            )
                        } else {
                            Err(DccError::MalformedField(DccField::PersonName))
                        },
                    }
                } else if kmaj == 3 && kval == 3 && j + 3 <= s.len() && s[j] == 102 && s[j + 1]
                    == 110 && s[j + 2] == 116 {
                    match spec_tstr(s, j + 3) {
                        None => Err(DccError::MalformedField(DccField::FirstNameTransliterated)),
                        Some((txt, next)) => if i < next && next <= s.len() {
                            spec_name_entries(
                                s,
                                next,
                                (n - 1) as nat,
                                SpecNameSlots { fnt: Some(txt), ..acc },
                            )
                        } else {
                            Err(DccError::MalformedField(DccField::PersonName))
                        },
                    }
                } else if kmaj == 3 && kval == 3 && j + 3 <= s.len() && s[j] == 103 && s[j + 1]
                    == 110 && s[j + 2] == 116 {
                    match spec_tstr(s, j + 3) {
                        None => Err(DccError::MalformedField(DccField::GivenNameTransliterated)),
                        Some((txt, next)) => if i < next && next <= s.len() {
                            spec_name_entries(
                                s,
                                next,
                                (n - 1) as nat,
                                SpecNameSlots { gnt: Some(txt), ..acc },
                            )
                        } else {
                            Err(DccError::MalformedField(DccField::PersonName))
                        },
                    }
                } else {
                    match spec_skip(s, i) {
                        None => Err(DccError::MalformedField(DccField::PersonName)),
                        Some(k1) => match spec_skip(s, k1) {
                            None => Err(DccError::MalformedField(DccField::PersonName)),
                            Some(k2) => if i < k2 && k2 <= s.len() {
                                spec_name_entries(s, k2, (n - 1) as nat, acc)
                            } else {
                                Err(DccError::MalformedField(DccField::PersonName))
                            },
                        },
                    }
                }
            },
        }
    }
}

/// The subject name at `i`: a map with the four required name parts;
/// unknown keys are ignored.
pub open spec fn spec_decode_name(s: Seq<u8>, i: int) -> Result<(SpecName, int), DccError>
    decreases s.len() - i, 0nat,
{
    match spec_head(s, i) {
        None => Err(DccError::MalformedField(DccField::PersonName)),
        Some((m, n, j)) => if m != 5 || j <= i {
            Err(DccError::MalformedField(DccField::PersonName))
        } else {
            match spec_name_entries(
                s,
                j,
                n,
                SpecNameSlots { fn_: None, gn: None, fnt: None, gnt: None },
            ) {
                Err(e) => Err(e),
                Ok((slots, end)) => match slots.fn_ {
                    None => Err(DccError::MissingField(DccField::FirstName)),
                    Some(fn_) => match slots.gn {
                        None => Err(DccError::MissingField(DccField::GivenName)),
                        Some(gn) => match slots.fnt {
                            None => Err(DccError::MissingField(DccField::FirstNameTransliterated)),
                            Some(fnt) => match slots.gnt {
                                None => Err(
                                    DccError::MissingField(DccField::GivenNameTransliterated),
                                ),
                                Some(gnt) => Ok(
                                    (
                                        SpecName {
                                            first_name: fn_,
                                            given_name: gn,
                                            first_name_transliterated: fnt,
                                            given_name_transliterated: gnt,
                                        },
                                        end,
                                    ),
                                ),
                            },
                        },
                    },
                },
            }
        },
    }
}

/// The slots of a subject name while its map is being read.
pub struct NameSlots {
    pub fn_: Option<Vec<u8>>,
    pub gn: Option<Vec<u8>>,
    pub fnt: Option<Vec<u8>>,
    pub gnt: Option<Vec<u8>>,
}

impl View for NameSlots {
    type V = SpecNameSlots;

    open spec fn view(&self) -> SpecNameSlots {
        SpecNameSlots {
            fn_: vob(self.fn_),
            gn: vob(self.gn),
            fnt: vob(self.fnt),
            gnt: vob(self.gnt),
        }
    }
}

/// Reads `n` subject-name map entries, exactly as `spec_name_entries`
/// describes them.
#[verifier::rlimit(60)]
fn name_entries(s: &[u8], i: usize, n: u64) -> (r: Result<(NameSlots, usize), DccError>)
    requires
        i <= s@.len(),
    ensures
        r matches Ok(p) ==> spec_name_entries(
            s@,
            i as int,
            n as nat,
            SpecNameSlots { fn_: None, gn: None, fnt: None, gnt: None },
        ) == Ok::<(SpecNameSlots, int), DccError>((p.0@, p.1 as int)) && i <= p.1 <= s@.len(),
        r matches Err(e) ==> spec_name_entries(
            s@,
            i as int,
            n as nat,
            SpecNameSlots { fn_: None, gn: None, fnt: None, gnt: None },
        ) == Err::<(SpecNameSlots, int), DccError>(e),
{
    let mut slots = NameSlots { fn_: None, gn: None, fnt: None, gnt: None };
    let mut cur = i;
    let mut c: u64 = 0;
    while c < n
        invariant
            i <= cur <= s@.len(),
            c <= n,
            spec_name_entries(
                s@,
                i as int,
                n as nat,
                SpecNameSlots { fn_: None, gn: None, fnt: None, gnt: None },
            ) == spec_name_entries(s@, cur as int, (n - c) as nat, slots@),
        decreases n - c,
    {
        let (kmaj, kval, j) = match parse_head(s, cur) {
            Some(h) => h,
            None => {
                return Err(DccError::MalformedField(DccField::PersonName));
            },
        };
        if kmaj == 3 && kval == 2 && s.len() - j >= 2 && s[j] == 102 && s[j + 1] == 110 {
            match parse_tstr(s, j + 2) {
                None => {
                    return Err(DccError::MalformedField(DccField::FirstName));
                },
                Some((txt, next)) => {
                    slots.fn_ = Some(txt);
                    cur = next;
                    c = c + 1;
                },
            }
        } else if kmaj == 3 && kval == 2 && s.len() - j >= 2 && s[j] == 103 && s[j + 1] == 110 {
            match parse_tstr(s, j + 2) {
                None => {
                    return Err(DccError::MalformedField(DccField::GivenName));
                },
                Some((txt, next)) => {
                    slots.gn = Some(txt);
                    cur = next;
                    c = c + 1;
                },
            }
        } else if kmaj == 3 && kval == 3 && s.len() - j >= 3 && s[j] == 102 && s[j + 1] == 110 && s[j
            + 2] == 116 {
            match parse_tstr(s, j + 3) {
                None => {
                    return Err(DccError::MalformedField(DccField::FirstNameTransliterated));
                },
                Some((txt, next)) => {
                    slots.fnt = Some(txt);
                    cur = next;
                    c = c + 1;
                },
            }
        } else if kmaj == 3 && kval == 3 && s.len() - j >= 3 && s[j] == 103 && s[j + 1] == 110 && s[j
            + 2] == 116 {
            match parse_tstr(s, j + 3) {
                None => {
                    return Err(DccError::MalformedField(DccField::GivenNameTransliterated));
                },
                Some((txt, next)) => {
                    slots.gnt = Some(txt);
                    cur = next;
                    c = c + 1;
                },
            }
        } else {
            let k1 = match skip_value(s, cur) {
                Some(k) => k,
                None => {
                    return Err(DccError::MalformedField(DccField::PersonName));
                },
            };
            let k2 = match skip_value(s, k1) {
                Some(k) => k,
                None => {
                    return Err(DccError::MalformedField(DccField::PersonName));
                },
            };
            cur = k2;
            c = c + 1;
        }
    }
    Ok((slots, cur))
}

/// Decodes the subject name at `i`, exactly as `spec_decode_name`
/// describes it.
pub fn decode_name(s: &[u8], i: usize) -> (r: Result<(Name, usize), DccError>)
    ensures
        r matches Ok(p) ==> spec_decode_name(s@, i as int) == Ok::<(SpecName, int), DccError>(
            (p.0@, p.1 as int),
        ) && i < p.1 <= s@.len(),
        r matches Err(e) ==> spec_decode_name(s@, i as int) == Err::<(SpecName, int), DccError>(e),
{
    let (m, n, j) = match parse_head(s, i) {
        Some(h) => h,
        None => {
            return Err(DccError::MalformedField(DccField::PersonName));
        },
    };
    if m != 5 {
        return Err(DccError::MalformedField(DccField::PersonName));
    }
    let (slots, end) = match name_entries(s, j, n) {
        Ok(p) => p,
        Err(e) => {
            return Err(e);
        },
    };
    let fn_ = match slots.fn_ {
        Some(x) => x,
        None => {
            return Err(DccError::MissingField(DccField::FirstName));
        },
    };
    let gn = match slots.gn {
        Some(x) => x,
        None => {
            return Err(DccError::MissingField(DccField::GivenName));
        },
    };
    let fnt = match slots.fnt {
        Some(x) => x,
        None => {
            return Err(DccError::MissingField(DccField::FirstNameTransliterated));
        },
    };
    let gnt = match slots.gnt {
        Some(x) => x,
        None => {
            return Err(DccError::MissingField(DccField::GivenNameTransliterated));
        },
    };
    Ok(
        (
            Name {
                first_name: fn_,
                given_name: gn,
                first_name_transliterated: fnt,
                given_name_transliterated: gnt,
            },
            end,
        ),
    )
}

/// The slots of the certificate record while its map is being read.
pub struct SpecDccSlots {
    pub v: Option<Seq<SpecVaccination>>,
    pub dob: Option<Date>,
    pub nam: Option<SpecName>,
    pub ver: Option<Seq<u8>>,
}

/// Reads `n` entries of the certificate-record map from `i`: the
/// vaccination list (which must hold at least one record), the date of
/// birth, the subject name and the schema version fill their slots;
/// unknown keys are skipped.
pub open spec fn spec_dcc_entries(
    s: Seq<u8>,
    i: int,
    n: nat,
    acc: SpecDccSlots,
    ehn: EhnData,
) -> Result<(SpecDccSlots, int), DccError>
    decreases s.len() - i, n,
{
    if n == 0 {
        Ok((acc, i))
    } else {
        match spec_head(s, i) {
            None => Err(DccError::MalformedField(DccField::Cert)),
            Some((kmaj, kval, j)) => {
                if kmaj == 3 && kval == 1 && j + 1 <= s.len() && s[j] == 118 {
                    match spec_head(s, j + 1) {
                        None => Err(DccError::MalformedField(DccField::Vaccine)),
                        Some((vm, cnt, aj)) => if vm != 4 || cnt == 0 || aj <= j + 1 {
                            Err(DccError::MalformedField(DccField::Vaccine))
                        } else {
                            match spec_vacc_items(s, aj, cnt, Seq::empty(), ehn) {
                                Err(e) => Err(e),
                                Ok((lst, next)) => if i < next && next <= s.len() {
                                    spec_dcc_entries(
                                        s,
                                        next,
                                        (n - 1) as nat,
                                        SpecDccSlots { v: Some(lst), ..acc },
                                        ehn,
                                    )
                                } else {
                                    Err(DccError::MalformedField(DccField::Cert))
                                },
                            }
                        },
                    }
                } else if kmaj == 3 && kval == 3 && j + 3 <= s.len() && s[j] == 100 && s[j + 1]
                    == 111 && s[j + 2] == 98 {
                    match spec_tstr(s, j + 3) {
                        None => Err(DccError::MalformedField(DccField::DateOfBirth)),
                        Some((txt, next)) => match spec_parse_date(txt) {
                            None => Err(DccError::MalformedField(DccField::DateOfBirth)),
                            Some(d) => if i < next && next <= s.len() {
                                spec_dcc_entries(
                                    s,
                                    next,
                                    (n - 1) as nat,
                                    SpecDccSlots { dob: Some(d), ..acc },
                                    ehn,
                                )
                            } else {
                                Err(DccError::MalformedField(DccField::Cert))
                            },
                        },
                    }
                } else if kmaj == 3 && kval == 3 && j + 3 <= s.len() && s[j] == 110 && s[j + 1]
                    == 97 && s[j + 2] == 109 {
                    match spec_decode_name(s, j + 3) {
                        Err(e) => Err(e),
                        Ok((nm, next)) => if i < next && next <= s.len() {
                            spec_dcc_entries(
                                s,
                                next,
                                (n - 1) as nat,
                                SpecDccSlots { nam: Some(nm), ..acc },
                                ehn,
                            )
                        } else {
                            Err(DccError::MalformedField(DccField::Cert))
                        },
                    }
                } else if kmaj == 3 && kval == 3 && j + 3 <= s.len() && s[j] == 118 && s[j + 1]
                    == 101 && s[j + 2] == 114 {
                    match spec_tstr(s, j + 3) {
                        None => Err(DccError::MalformedField(DccField::Version)),
                        Some((txt, next)) => if i < next && next <= s.len() {
                            spec_dcc_entries(
                                s,
                                next,
                                (n - 1) as nat,
                                SpecDccSlots { ver: Some(txt), ..acc },
                                ehn,
                            )
                        } else {
                            Err(DccError::MalformedField(DccField::Cert))
                        },
                    }
                } else {
                    match spec_skip(s, i) {
                        None => Err(DccError::MalformedField(DccField::Cert)),
                        Some(k1) => match spec_skip(s, k1) {
                            None => Err(DccError::MalformedField(DccField::Cert)),
                            Some(k2) => if i < k2 && k2 <= s.len() {
                                spec_dcc_entries(s, k2, (n - 1) as nat, acc, ehn)
                            } else {
                                Err(DccError::MalformedField(DccField::Cert))
                            },
                        },
                    }
                }
            },
        }
    }
}

/// The certificate record at `i`: a map with the required vaccination
/// list, date of birth, subject name and version; unknown keys are
/// ignored.
#[verifier::opaque]
pub open spec fn spec_decode_dcc(s: Seq<u8>, i: int, ehn: EhnData) -> Result<
    (SpecDigitalCovidCertificate, int),
    DccError,
>
    decreases s.len() - i, 0nat,
{
    match spec_head(s, i) {
        None => Err(DccError::MalformedField(DccField::Cert)),
        Some((m, n, j)) => if m != 5 || j <= i {
            Err(DccError::MalformedField(DccField::Cert))
        } else {
            match spec_dcc_entries(
                s,
                j,
                n,
                SpecDccSlots { v: None, dob: None, nam: None, ver: None },
                ehn,
            ) {
                Err(e) => Err(e),
                Ok((slots, end)) => match slots.v {
                    None => Err(DccError::MissingField(DccField::Vaccine)),
                    Some(v) => match slots.dob {
                        None => Err(DccError::MissingField(DccField::DateOfBirth)),
                        Some(dob) => match slots.nam {
                            None => Err(DccError::MissingField(DccField::PersonName)),
                            Some(nam) => match slots.ver {
                                None => Err(DccError::MissingField(DccField::Version)),
                                Some(ver) => Ok(
                                    (
                                        SpecDigitalCovidCertificate {
                                            vaccine: v,
                                            date_of_birth: dob,
                                            name: nam,
                                            version: ver,
                                        },
                                        end,
                                    ),
                                ),
                            },
                        },
                    },
                },
            }
        },
    }
}

/// The slots of the certificate record while its map is being read.
pub struct DccSlots {
    pub v: Option<Vec<Vaccination>>,
    pub dob: Option<Date>,
    pub nam: Option<Name>,
    pub ver: Option<Vec<u8>>,
}

impl View for DccSlots {
    type V = SpecDccSlots;

    open spec fn view(&self) -> SpecDccSlots {
        SpecDccSlots {
            v: vovacc(self.v),
            dob: self.dob,
            nam: voname(self.nam),
            ver: vob(self.ver),
        }
    }
}

/// Reads `n` certificate-record map entries, exactly as
/// `spec_dcc_entries` describes them.
#[verifier::rlimit(60)]
fn dcc_entries(s: &[u8], i: usize, n: u64, ehn: &EhnData) -> (r: Result<
    (DccSlots, usize),
    DccError,
>)
    requires
        i <= s@.len(),
    ensures
        r matches Ok(p) ==> spec_dcc_entries(
            s@,
            i as int,
            n as nat,
            SpecDccSlots { v: None, dob: None, nam: None, ver: None },
            *ehn,
        ) == Ok::<(SpecDccSlots, int), DccError>((p.0@, p.1 as int)) && i <= p.1 <= s@.len(),
        r matches Err(e) ==> spec_dcc_entries(
            s@,
            i as int,
            n as nat,
            SpecDccSlots { v: None, dob: None, nam: None, ver: None },
            *ehn,
        ) == Err::<(SpecDccSlots, int), DccError>(e),
{
    let mut slots = DccSlots { v: None, dob: None, nam: None, ver: None };
    let mut cur = i;
    let mut c: u64 = 0;
    while c < n
        invariant
            i <= cur <= s@.len(),
            c <= n,
            spec_dcc_entries(
                s@,
                i as int,
                n as nat,
                SpecDccSlots { v: None, dob: None, nam: None, ver: None },
                *ehn,
            ) == spec_dcc_entries(s@, cur as int, (n - c) as nat, slots@, *ehn),
        decreases n - c,
    {
        let (kmaj, kval, j) = match parse_head(s, cur) {
            Some(h) => h,
            None => {
                return Err(DccError::MalformedField(DccField::Cert));
            },
        };
        if kmaj == 3 && kval == 1 && s.len() - j >= 1 && s[j] == 118 {
            let (vm, cnt, aj) = match parse_head(s, j + 1) {
                Some(h) => h,
                None => {
                    return Err(DccError::MalformedField(DccField::Vaccine));
                },
            };
            if vm != 4 || cnt == 0 {
                return Err(DccError::MalformedField(DccField::Vaccine));
            }
            match vacc_items(s, aj, cnt, ehn) {
                Err(e) => {
                    return Err(e);
                },
                Ok((lst, next)) => {
                    slots.v = Some(lst);
                    cur = next;
                    c = c + 1;
                },
            }
        } else if kmaj == 3 && kval == 3 && s.len() - j >= 3 && s[j] == 100 && s[j + 1] == 111 && s[j
            + 2] == 98 {
            match parse_tstr(s, j + 3) {
                None => {
                    return Err(DccError::MalformedField(DccField::DateOfBirth));
                },
                Some((txt, next)) => match parse_date(txt.as_slice()) {
                    None => {
                        return Err(DccError::MalformedField(DccField::DateOfBirth));
                    },
                    Some(d) => {
                        slots.dob = Some(d);
                        cur = next;
                        c = c + 1;
                    },
                },
            }
        } else if kmaj == 3 && kval == 3 && s.len() - j >= 3 && s[j] == 110 && s[j + 1] == 97 && s[j
            + 2] == 109 {
            match decode_name(s, j + 3) {
                Err(e) => {
                    return Err(e);
                },
                Ok((nm, next)) => {
                    slots.nam = Some(nm);
                    cur = next;
                    c = c + 1;
                },
            }
        } else if kmaj == 3 && kval == 3 && s.len() - j >= 3 && s[j] == 118 && s[j + 1] == 101 && s[j
            + 2] == 114 {
            match parse_tstr(s, j + 3) {
                None => {
                    return Err(DccError::MalformedField(DccField::Version));
                },
                Some((txt, next)) => {
                    slots.ver = Some(txt);
                    cur = next;
                    c = c + 1;
                },
            }
        } else {
            let k1 = match skip_value(s, cur) {
                Some(k) => k,
                None => {
                    return Err(DccError::MalformedField(DccField::Cert));
                },
            };
            let k2 = match skip_value(s, k1) {
                Some(k) => k,
                None => {
                    return Err(DccError::MalformedField(DccField::Cert));
                },
            };
            cur = k2;
            c = c + 1;
        }
    }
    Ok((slots, cur))
}

/// Decodes the certificate record at `i`, exactly as `spec_decode_dcc`
/// describes it.
pub fn decode_dcc(s: &[u8], i: usize, ehn: &EhnData) -> (r: Result<
    (DigitalCovidCertificate, usize),
    DccError,
>)
    ensures
        r matches Ok(p) ==> spec_decode_dcc(s@, i as int, *ehn) == Ok::<
            (SpecDigitalCovidCertificate, int),
            DccError,
        >((p.0@, p.1 as int)) && i < p.1 <= s@.len(),
        r matches Err(e) ==> spec_decode_dcc(s@, i as int, *ehn) == Err::<
            (SpecDigitalCovidCertificate, int),
            DccError,
        >(e),
{
    proof {
        reveal(spec_decode_dcc);
    }
    let (m, n, j) = match parse_head(s, i) {
        Some(h) => h,
        None => {
            return Err(DccError::MalformedField(DccField::Cert));
        },
    };
    if m != 5 {
        return Err(DccError::MalformedField(DccField::Cert));
    }
    let (slots, end) = match dcc_entries(s, j, n, ehn) {
        Ok(p) => p,
        Err(e) => {
            return Err(e);
        },
    };
    let v = match slots.v {
        Some(x) => x,
        None => {
            return Err(DccError::MissingField(DccField::Vaccine));
        },
    };
    let dob = match slots.dob {
        Some(x) => x,
        None => {
            return Err(DccError::MissingField(DccField::DateOfBirth));
        },
    };
    let nam = match slots.nam {
        Some(x) => x,
        None => {
            return Err(DccError::MissingField(DccField::PersonName));
        },
    };
    let ver = match slots.ver {
        Some(x) => x,
        None => {
            return Err(DccError::MissingField(DccField::Version));
        },
    };
    Ok((DigitalCovidCertificate { vaccine: v, date_of_birth: dob, name: nam, version: ver }, end))
}

/// Reads `n` entries of the health-claim map from `i`: the integer key
/// 1 carries the certificate record; unknown keys are skipped.
pub open spec fn spec_hc_entries(
    s: Seq<u8>,
    i: int,
    n: nat,
    acc: Option<SpecDigitalCovidCertificate>,
    ehn: EhnData,
) -> Result<(Option<SpecDigitalCovidCertificate>, int), DccError>
    decreases s.len() - i, n,
{
    if n == 0 {
        Ok((acc, i))
    } else {
        match spec_head(s, i) {
            None => Err(DccError::MalformedField(DccField::HealthClaim)),
            Some((kmaj, kval, j)) => {
                if kmaj == 0 && kval == 1 {
                    match spec_decode_dcc(s, j, ehn) {
                        Err(e) => Err(e),
                        Ok((cert, next)) => if i < next && next <= s.len() {
                            spec_hc_entries(s, next, (n - 1) as nat, Some(cert), ehn)
                        } else {
                            Err(DccError::MalformedField(DccField::HealthClaim))
                        },
                    }
                } else {
                    match spec_skip(s, i) {
                        None => Err(DccError::MalformedField(DccField::HealthClaim)),
                        Some(k1) => match spec_skip(s, k1) {
                            None => Err(DccError::MalformedField(DccField::HealthClaim)),
                            Some(k2) => if i < k2 && k2 <= s.len() {
                                spec_hc_entries(s, k2, (n - 1) as nat, acc, ehn)
                            } else {
                                Err(DccError::MalformedField(DccField::HealthClaim))
                            },
                        },
                    }
                }
            },
        }
    }
}

/// The health claim at `i`: a map whose required entry under the
/// integer key 1 is the certificate record; unknown keys are ignored.
pub open spec fn spec_decode_hc(s: Seq<u8>, i: int, ehn: EhnData) -> Result<
    (SpecHealthClaim, int),
    DccError,
>
    decreases s.len() - i, 0nat,
{
    match spec_head(s, i) {
        None => Err(DccError::MalformedField(DccField::HealthClaim)),
        Some((m, n, j)) => if m != 5 || j <= i {
            Err(DccError::MalformedField(DccField::HealthClaim))
        } else {
            match spec_hc_entries(s, j, n, None, ehn) {
                Err(e) => Err(e),
                Ok((acc, end)) => match acc {
                    None => Err(DccError::MissingField(DccField::Cert)),
                    Some(cert) => Ok((SpecHealthClaim { cert }, end)),
                },
            }
        },
    }
}

/// Reads `n` health-claim map entries, exactly as `spec_hc_entries`
/// describes them.
#[verifier::rlimit(60)]
fn hc_entries(s: &[u8], i: usize, n: u64, ehn: &EhnData) -> (r: Result<
    (Option<DigitalCovidCertificate>, usize),
    DccError,
>)
    requires
        i <= s@.len(),
    ensures
        r matches Ok(p) ==> spec_hc_entries(s@, i as int, n as nat, None, *ehn) == Ok::<
            (Option<SpecDigitalCovidCertificate>, int),
            DccError,
        >((vodcc(p.0), p.1 as int)) && i <= p.1 <= s@.len(),
        r matches Err(e) ==> spec_hc_entries(s@, i as int, n as nat, None, *ehn) == Err::<
            (Option<SpecDigitalCovidCertificate>, int),
            DccError,
        >(e),
{
    let mut cur = i;
    let mut c: u64 = 0;
    let mut acc: Option<DigitalCovidCertificate> = None;
    while c < n
        invariant
            i <= cur <= s@.len(),
            c <= n,
            spec_hc_entries(s@, i as int, n as nat, None, *ehn) == spec_hc_entries(
                s@,
                cur as int,
                (n - c) as nat,
                vodcc(acc),
                *ehn,
            ),
        decreases n - c,
    {
        let (kmaj, kval, jj) = match parse_head(s, cur) {
            Some(h) => h,
            None => {
                return Err(DccError::MalformedField(DccField::HealthClaim));
            },
        };
        if kmaj == 0 && kval == 1 {
            match decode_dcc(s, jj, ehn) {
                Err(e) => {
                    return Err(e);
                },
                Ok((cert, next)) => {
                    acc = Some(cert);
                    cur = next;
                    c = c + 1;
                },
            }
        } else {
            let k1 = match skip_value(s, cur) {
                Some(k) => k,
                None => {
                    return Err(DccError::MalformedField(DccField::HealthClaim));
                },
            };
            let k2 = match skip_value(s, k1) {
                Some(k) => k,
                None => {
                    return Err(DccError::MalformedField(DccField::HealthClaim));
                },
            };
            cur = k2;
            c = c + 1;
        }
    }
    Ok((acc, cur))
}

/// Decodes the health claim at `i`, exactly as `spec_decode_hc`
/// describes it.
pub fn decode_hc(s: &[u8], i: usize, ehn: &EhnData) -> (r: Result<(HealthClaim, usize), DccError>)
    ensures
        r matches Ok(p) ==> spec_decode_hc(s@, i as int, *ehn) == Ok::<
            (SpecHealthClaim, int),
            DccError,
        >((p.0@, p.1 as int)) && i < p.1 <= s@.len(),
        r matches Err(e) ==> spec_decode_hc(s@, i as int, *ehn) == Err::<
            (SpecHealthClaim, int),
            DccError,
        >(e),
{
    let (m, n, j) = match parse_head(s, i) {
        Some(h) => h,
        None => {
            return Err(DccError::MalformedField(DccField::HealthClaim));
        },
    };
    if m != 5 {
        return Err(DccError::MalformedField(DccField::HealthClaim));
    }
    let (acc, end) = match hc_entries(s, j, n, ehn) {
        Ok(p) => p,
        Err(e) => {
            return Err(e);
        },
    };
    match acc {
        None => Err(DccError::MissingField(DccField::Cert)),
        Some(cert) => Ok((HealthClaim { cert }, end)),
    }
}

/// The slots of the payload while its map is being read.
pub struct SpecPaySlots {
    pub issuer: Option<Seq<u8>>,
    pub exp: Option<u64>,
    pub iat: Option<u64>,
    pub hc: Option<SpecHealthClaim>,
}

/// Reads `n` entries of the payload map from `i`: the integer keys 1
/// (issuer text), 4 (expiration time), 6 (issue time) and -260 (health
/// claim) fill their slots; unknown keys are skipped.
pub open spec fn spec_pay_entries(
    s: Seq<u8>,
    i: int,
    n: nat,
    acc: SpecPaySlots,
    ehn: EhnData,
) -> Result<(SpecPaySlots, int), DccError>
    decreases s.len() - i, n,
{
    if n == 0 {
        Ok((acc, i))
    } else {
        match spec_head(s, i) {
            None => Err(DccError::MalformedField(DccField::Payload)),
            Some((kmaj, kval, j)) => {
                if kmaj == 0 && kval == 1 {
                    match spec_tstr(s, j) {
                        None => Err(DccError::MalformedField(DccField::Issuer)),
                        Some((txt, next)) => if i < next && next <= s.len() {
                            spec_pay_entries(
                                s,
                                next,
                                (n - 1) as nat,
                                SpecPaySlots { issuer: Some(txt), ..acc },
                                ehn,
                            )
                        } else {
                            Err(DccError::MalformedField(DccField::Payload))
                        },
                    }
                } else if kmaj == 0 && kval == 4 {
                    match spec_head(s, j) {
                        None => Err(DccError::MalformedField(DccField::ExpirationTime)),
                        Some((vm, vv, next)) => if vm != 0 {
                            Err(DccError::MalformedField(DccField::ExpirationTime))
                        } else if i < next && next <= s.len() {
                            spec_pay_entries(
                                s,
                                next,
                                (n - 1) as nat,
                                SpecPaySlots { exp: Some(vv as u64), ..acc },
                                ehn,
                            )
                        } else {
                            Err(DccError::MalformedField(DccField::Payload))
                        },
                    }
                } else if kmaj == 0 && kval == 6 {
                    match spec_head(s, j) {
                        None => Err(DccError::MalformedField(DccField::IssuedAt)),
                        Some((vm, vv, next)) => if vm != 0 {
                            Err(DccError::MalformedField(DccField::IssuedAt))
                        } else if i < next && next <= s.len() {
                            spec_pay_entries(
                                s,
                                next,
                                (n - 1) as nat,
                                SpecPaySlots { iat: Some(vv as u64), ..acc },
                                ehn,
                            )
                        } else {
                            Err(DccError::MalformedField(DccField::Payload))
                        },
                    }
                } else if kmaj == 1 && kval == 259 {
                    match spec_decode_hc(s, j, ehn) {
                        Err(e) => Err(e),
                        Ok((hc, next)) => if i < next && next <= s.len() {
                            spec_pay_entries(
                                s,
                                next,
                                (n - 1) as nat,
                                SpecPaySlots { hc: Some(hc), ..acc },
                                ehn,
                            )
                        } else {
                            Err(DccError::MalformedField(DccField::Payload))
                        },
                    }
                } else {
                    match spec_skip(s, i) {
                        None => Err(DccError::MalformedField(DccField::Payload)),
                        Some(k1) => match spec_skip(s, k1) {
                            None => Err(DccError::MalformedField(DccField::Payload)),
                            Some(k2) => if i < k2 && k2 <= s.len() {
                                spec_pay_entries(s, k2, (n - 1) as nat, acc, ehn)
                            } else {
                                Err(DccError::MalformedField(DccField::Payload))
                            },
                        },
                    }
                }
            },
        }
    }
}

/// The whole certificate payload: one map consuming the bytes exactly,
/// with the required issuer, expiration time, issue time and health
/// claim promoted in that order; unknown keys are ignored.
pub open spec fn spec_decode_payload(s: Seq<u8>, ehn: EhnData) -> Result<SpecCertPayload, DccError> {
    match spec_head(s, 0) {
        None => Err(DccError::MalformedField(DccField::Payload)),
        Some((m, n, j)) => if m != 5 || j <= 0 {
            Err(DccError::MalformedField(DccField::Payload))
        } else {
            match spec_pay_entries(
                s,
                j,
                n,
                SpecPaySlots { issuer: None, exp: None, iat: None, hc: None },
                ehn,
            ) {
                Err(e) => Err(e),
                Ok((slots, end)) => match slots.issuer {
                    None => Err(DccError::MissingField(DccField::Issuer)),
                    Some(iss) => match slots.exp {
                        None => Err(DccError::MissingField(DccField::ExpirationTime)),
                        Some(exp) => match slots.iat {
                            None => Err(DccError::MissingField(DccField::IssuedAt)),
                            Some(iat) => match slots.hc {
                                None => Err(DccError::MissingField(DccField::HealthClaim)),
                                Some(hc) => if end == s.len() {
                                    Ok(
                                        SpecCertPayload {
                                            issuer: iss,
                                            expiration_time: exp,
                                            issued_at: iat,
                                            health_claim: hc,
                                        },
                                    )
                                } else {
                                    Err(DccError::MalformedField(DccField::Payload))
                                },
                            },
                        },
                    },
                },
            }
        },
    }
}

/// The slots of the payload while its map is being read.
pub struct PaySlots {
    pub issuer: Option<Vec<u8>>,
    pub exp: Option<u64>,
    pub iat: Option<u64>,
    pub hc: Option<HealthClaim>,
}

impl View for PaySlots {
    type V = SpecPaySlots;

    open spec fn view(&self) -> SpecPaySlots {
        SpecPaySlots { issuer: vob(self.issuer), exp: self.exp, iat: self.iat, hc: vohc(self.hc) }
    }
}

/// Reads `n` payload-map entries, exactly as `spec_pay_entries`
/// describes them.
#[verifier::rlimit(60)]
fn pay_entries(s: &[u8], i: usize, n: u64, ehn: &EhnData) -> (r: Result<
    (PaySlots, usize),
    DccError,
>)
    requires
        i <= s@.len(),
    ensures
        r matches Ok(p) ==> spec_pay_entries(
            s@,
            i as int,
            n as nat,
            SpecPaySlots { issuer: None, exp: None, iat: None, hc: None },
            *ehn,
        ) == Ok::<(SpecPaySlots, int), DccError>((p.0@, p.1 as int)) && i <= p.1 <= s@.len(),
        r matches Err(e) ==> spec_pay_entries(
            s@,
            i as int,
            n as nat,
            SpecPaySlots { issuer: None, exp: None, iat: None, hc: None },
            *ehn,
        ) == Err::<(SpecPaySlots, int), DccError>(e),
{
    let mut slots = PaySlots { issuer: None, exp: None, iat: None, hc: None };
    let mut cur = i;
    let mut c: u64 = 0;
    while c < n
        invariant
            i <= cur <= s@.len(),
            c <= n,
            spec_pay_entries(
                s@,
                i as int,
                n as nat,
                SpecPaySlots { issuer: None, exp: None, iat: None, hc: None },
                *ehn,
            ) == spec_pay_entries(s@, cur as int, (n - c) as nat, slots@, *ehn),
        decreases n - c,
    {
        let (kmaj, kval, j) = match parse_head(s, cur) {
            Some(h) => h,
            None => {
                return Err(DccError::MalformedField(DccField::Payload));
            },
        };
        if kmaj == 0 && kval == 1 {
            match parse_tstr(s, j) {
                None => {
                    return Err(DccError::MalformedField(DccField::Issuer));
                },
                Some((txt, next)) => {
                    slots.issuer = Some(txt);
                    cur = next;
                    c = c + 1;
                },
            }
        } else if kmaj == 0 && kval == 4 {
            match parse_head(s, j) {
                None => {
                    return Err(DccError::MalformedField(DccField::ExpirationTime));
                },
                Some((vm, vv, next)) => {
                    if vm != 0 {
                        return Err(DccError::MalformedField(DccField::ExpirationTime));
                    }
                    slots.exp = Some(vv);
                    cur = next;
                    c = c + 1;
                },
            }
        } else if kmaj == 0 && kval == 6 {
            match parse_head(s, j) {
                None => {
                    return Err(DccError::MalformedField(DccField::IssuedAt));
                },
                Some((vm, vv, next)) => {
                    if vm != 0 {
                        return Err(DccError::MalformedField(DccField::IssuedAt));
                    }
                    slots.iat = Some(vv);
                    cur = next;
                    c = c + 1;
                },
            }
        } else if kmaj == 1 && kval == 259 {
            match decode_hc(s, j, ehn) {
                Err(e) => {
                    return Err(e);
                },
                Ok((hc, next)) => {
                    slots.hc = Some(hc);
                    cur = next;
                    c = c + 1;
                },
            }
        } else {
            let k1 = match skip_value(s, cur) {
                Some(k) => k,
                None => {
                    return Err(DccError::MalformedField(DccField::Payload));
                },
            };
            let k2 = match skip_value(s, k1) {
                Some(k) => k,
                None => {
                    return Err(DccError::MalformedField(DccField::Payload));
                },
            };
            cur = k2;
            c = c + 1;
        }
    }
    Ok((slots, cur))
}

impl CertPayload {
    /// Decodes the payload byte string into a typed certificate record,
    /// exactly as `spec_decode_payload` describes it; coded values are
    /// resolved against the reference value sets handed in.
    pub fn decode(s: &[u8], ehn: &EhnData) -> (r: Result<CertPayload, DccError>)
        ensures
            r matches Ok(p) ==> spec_decode_payload(s@, *ehn) == Ok::<SpecCertPayload, DccError>(
                p@,
            ),
            r matches Err(e) ==> spec_decode_payload(s@, *ehn) == Err::<SpecCertPayload, DccError>(
                e,
            ),
    {
        let (m, n, j) = match parse_head(s, 0) {
            Some(h) => h,
            None => {
                return Err(DccError::MalformedField(DccField::Payload));
            },
        };
        if m != 5 {
            return Err(DccError::MalformedField(DccField::Payload));
        }
        let (slots, end) = match pay_entries(s, j, n, ehn) {
            Ok(p) => p,
            Err(e) => {
                return Err(e);
            },
        };
        let iss = match slots.issuer {
            Some(x) => x,
            None => {
                return Err(DccError::MissingField(DccField::Issuer));
            },
        };
        let exp = match slots.exp {
            Some(x) => x,
            None => {
                return Err(DccError::MissingField(DccField::ExpirationTime));
            },
        };
        let iat = match slots.iat {
            Some(x) => x,
            None => {
                return Err(DccError::MissingField(DccField::IssuedAt));
            },
        };
        let hc = match slots.hc {
            Some(x) => x,
            None => {
                return Err(DccError::MissingField(DccField::HealthClaim));
            },
        };
        if end != s.len() {
            return Err(DccError::MalformedField(DccField::Payload));
        }
        Ok(CertPayload { issuer: iss, expiration_time: exp, issued_at: iat, health_claim: hc })
    }
}

/// Errors of the whole token pipeline, one per layer.
#[derive(Debug, Clone, Copy, PartialEq, Eq)]
pub enum LoadError {
    /// The token does not begin with the expected scheme prefix.
    BadPrefix,
    /// The restricted-alphabet layer failed.
    Base45(Base45Error),
    /// The compressed layer could not be decompressed.
    Decompression,
    /// The envelope layer failed.
    Envelope(CwtError),
}

/// The token with its trailing newline bytes removed.
pub open spec fn spec_trim_newlines(s: Seq<u8>) -> Seq<u8>
    decreases s.len(),
{
    if s.len() > 0 && s[s.len() - 1] == 10 {
        spec_trim_newlines(s.take(s.len() - 1))
    } else {
        s
    }
}

/// What decompressing a byte string yields, or `None` where the bytes
/// are not a well-formed compressed stream.
pub uninterp spec fn zlib_inflate(s: Seq<u8>) -> Option<Seq<u8>>;

/// Relies on flate2's `bufread::ZlibDecoder` with `Read::read_to_end`:
/// decompressing a stream is a function of the input bytes alone, and
/// any I/O-style failure here can only come from malformed input.
#[verifier::external_body]
fn inflate(data: &[u8]) -> (r: Option<Vec<u8>>)
    ensures
        r matches Some(v) ==> zlib_inflate(data@) == Some(v@),
        r is None ==> zlib_inflate(data@) is None,
{
    let mut z = flate2::bufread::ZlibDecoder::new(data);
    let mut out = Vec::new();
    match std::io::Read::read_to_end(&mut z, &mut out) {
        Ok(_) => Some(out),
        Err(_) => None,
    }
}

/// The result of the whole front half of the pipeline: trailing
/// newlines removed, the four-byte scheme prefix `HC1:` checked and
/// stripped, the remainder decoded from the restricted alphabet,
/// decompressed, and parsed as a signed envelope.
pub open spec fn spec_load_sign1(s: Seq<u8>) -> Result<SpecSign1, LoadError> {
    let t = spec_trim_newlines(s);
    if t.len() < 4 || t[0] != 72 || t[1] != 67 || t[2] != 49 || t[3] != 58 {
        Err(LoadError::BadPrefix)
    } else {
        match b45::spec_decode(t.skip(4)) {
            Err(e) => Err(LoadError::Base45(e)),
            Ok(bin) => match zlib_inflate(bin) {
                None => Err(LoadError::Decompression),
                Some(env) => match spec_parse_sign1(env) {
                    None => Err(LoadError::Envelope(CwtError::MalformedEnvelope)),
                    Some(v) => Ok(v),
                },
            },
        }
    }
}

/// Loads a text token into a parsed signed envelope, exactly as
/// `spec_load_sign1` describes it.
pub fn load_sign1(buf: &[u8]) -> (r: Result<Sign1, LoadError>)
    ensures
        r matches Ok(v) ==> spec_load_sign1(buf@) == Ok::<SpecSign1, LoadError>(v@),
        r matches Err(e) ==> spec_load_sign1(buf@) == Err::<SpecSign1, LoadError>(e),
{
    let mut end = buf.len();
    proof {
        assert(buf@.take(buf@.len() as int) =~= buf@);
    }
    while end > 0 && buf[end - 1] == 10
        invariant
            end <= buf@.len(),
            spec_trim_newlines(buf@) == spec_trim_newlines(buf@.take(end as int)),
        decreases end,
    {
        proof {
            let t = buf@.take(end as int);
            assert(t[end - 1] == buf@[end - 1]);
            assert(t.take(end - 1) =~= buf@.take(end - 1));
        }
        end = end - 1;
    }
    proof {
        assert(spec_trim_newlines(buf@.take(end as int)) == buf@.take(end as int));
    }
    if end < 4 || buf[0] != 72 || buf[1] != 67 || buf[2] != 49 || buf[3] != 58 {
        return Err(LoadError::BadPrefix);
    }
    let body = crate::cbor::copy_range(buf, 4, end);
    proof {
        assert(body@ =~= spec_trim_newlines(buf@).skip(4));
    }
    let bin = match b45::base45_decode(body.as_slice()) {
        Ok(v) => v,
        Err(e) => {
            return Err(LoadError::Base45(e));
        },
    };
    let env = match inflate(bin.as_slice()) {
        Some(v) => v,
        None => {
            return Err(LoadError::Decompression);
        },
    };
    match parse_sign1(env.as_slice()) {
        Ok(v) => Ok(v),
        Err(_) => Err(LoadError::Envelope(CwtError::MalformedEnvelope)),
    }
}

} // verus!
