//! The closed taxonomies of bill types and bill text versions.
use vstd::prelude::*;

verus! {

/// The legislative vehicle a bill belongs to.
#[derive(Clone, Copy, Debug, PartialEq, Eq, Structural)]
pub enum BillType {
    HR,
    S,
    HJRES,
    SJRES,
    HCONRES,
    SCONRES,
    HRES,
    SRES,
}

impl BillType {
    /// The canonical short code of the bill type, which is also its display form.
    pub open spec fn code(self) -> Seq<char> {
        match self {
            BillType::HR => seq!['H', 'R'],
            BillType::S => seq!['S'],
            BillType::HJRES => seq!['H', 'J', 'R', 'E', 'S'],
            BillType::SJRES => seq!['S', 'J', 'R', 'E', 'S'],
            BillType::HCONRES => seq!['H', 'C', 'O', 'N', 'R', 'E', 'S'],
            BillType::SCONRES => seq!['S', 'C', 'O', 'N', 'R', 'E', 'S'],
            BillType::HRES => seq!['H', 'R', 'E', 'S'],
            BillType::SRES => seq!['S', 'R', 'E', 'S'],
        }
    }

    /// Renders the bill type as its canonical code.
    pub fn to_string(&self) -> (r: String)
        ensures
            r@ == self.code(),
    {
        let s = match self {
            BillType::HR => "HR",
            BillType::S => "S",
            BillType::HJRES => "HJRES",
            BillType::SJRES => "SJRES",
            BillType::HCONRES => "HCONRES",
            BillType::SCONRES => "SCONRES",
            BillType::HRES => "HRES",
            BillType::SRES => "SRES",
        };
        proof {
            reveal_strlit("HR");
            reveal_strlit("S");
            reveal_strlit("HJRES");
            reveal_strlit("SJRES");
            reveal_strlit("HCONRES");
            reveal_strlit("SCONRES");
            reveal_strlit("HRES");
            reveal_strlit("SRES");
        }
        let r = String::from_str(s);
        assert(r@ =~= self.code());
        r
    }
}

/// The stage of the legislative process that a published bill text belongs to.
#[derive(Clone, Copy, Debug, PartialEq, Eq, Structural)]
pub enum BillTextVersionAbbreviation {
    AS,
    ASH,
    ATH,
    ATS,
    CDH,
    CDS,
    CPH,
    CPS,
    EAH,
    EAS,
    EH,
    ENR,
    ES,
    FPH,
    FPS,
    HDS,
    IH,
    IPH,
    IPS,
    IS,
    LTH,
    LTS,
    PAP,
    PCS,
    PP,
    PVTL,
    PL,
    RCH,
    RCS,
    RDS,
    RFH,
    RFS,
    RH,
    RHUC,
    RIH,
    RS,
    RTH,
    RTS,
    SC,
    STATPVT,
    STAT,
}

impl BillTextVersionAbbreviation {
    /// The human-readable phrase for the version code.
    pub open spec fn description(self) -> Seq<char> {
        match self {
            BillTextVersionAbbreviation::AS => "Amendment Ordered to be Printed (Senate)"@,
            BillTextVersionAbbreviation::ASH => "Additional Sponsors House"@,
            BillTextVersionAbbreviation::ATH => "Agreed to House"@,
            BillTextVersionAbbreviation::ATS => "Agreed to Senate"@,
            BillTextVersionAbbreviation::CDH => "Committee Discharged House"@,
            BillTextVersionAbbreviation::CDS => "Committee Discharged Senate"@,
            BillTextVersionAbbreviation::CPH => "Considered and Passed House"@,
            BillTextVersionAbbreviation::CPS => "Considered and Passed Senate"@,
            BillTextVersionAbbreviation::EAH => "Engrossed Amendment House"@,
            BillTextVersionAbbreviation::EAS => "Engrossed Amendment Senate"@,
            BillTextVersionAbbreviation::EH => "Engrossed in House"@,
            BillTextVersionAbbreviation::ENR => "Enrolled Bill"@,
            BillTextVersionAbbreviation::ES => "Engrossed in Senate"@,
            BillTextVersionAbbreviation::FPH => "Failed Passage House"@,
            BillTextVersionAbbreviation::FPS => "Failed Passage Senate"@,
            BillTextVersionAbbreviation::HDS => "Held at Desk Senate"@,
            BillTextVersionAbbreviation::IH => "Introduced in House"@,
            BillTextVersionAbbreviation::IPH => "Indefinitely Postponed House"@,
            BillTextVersionAbbreviation::IPS => "Indefinitely Postponed Senate"@,
            BillTextVersionAbbreviation::IS => "Introduced in Senate"@,
            BillTextVersionAbbreviation::LTH => "Laid on Table in House"@,
            BillTextVersionAbbreviation::LTS => "Laid on Table in Senate"@,
            BillTextVersionAbbreviation::PAP => "Printed as Passed"@,
            BillTextVersionAbbreviation::PCS => "Placed on Calendar Senate"@,
            BillTextVersionAbbreviation::PP => "Public Print"@,
            BillTextVersionAbbreviation::PVTL => "Private Law"@,
            BillTextVersionAbbreviation::PL => "Public Law"@,
            BillTextVersionAbbreviation::RCH => "Reference Change House"@,
            BillTextVersionAbbreviation::RCS => "Reference Change Senate"@,
            BillTextVersionAbbreviation::RDS => "Received in Senate"@,
            BillTextVersionAbbreviation::RFH => "Referred in House"@,
            BillTextVersionAbbreviation::RFS => "Referred in Senate"@,
            BillTextVersionAbbreviation::RH => "Reported in House"@,
            BillTextVersionAbbreviation::RHUC => "Returned to the House by Unanimous Consent"@,
            BillTextVersionAbbreviation::RIH => "Referral Instructions House"@,
            BillTextVersionAbbreviation::RS => "Reported to Senate"@,
            BillTextVersionAbbreviation::RTH => "Referred to Committee House"@,
            BillTextVersionAbbreviation::RTS => "Referred to Committee Senate"@,
            BillTextVersionAbbreviation::SC => "Sponsor Change"@,
            BillTextVersionAbbreviation::STATPVT => "Statutes at Large (Private Law)"@,
            BillTextVersionAbbreviation::STAT => "Statute"@,
        }
    }

    /// Renders the version as its human-readable phrase.
    pub fn to_string(&self) -> (r: String)
        ensures
            r@ == self.description(),
    {
        match self {
            BillTextVersionAbbreviation::AS => String::from_str("Amendment Ordered to be Printed (Senate)"),
            BillTextVersionAbbreviation::ASH => String::from_str("Additional Sponsors House"),
            BillTextVersionAbbreviation::ATH => String::from_str("Agreed to House"),
            BillTextVersionAbbreviation::ATS => String::from_str("Agreed to Senate"),
            BillTextVersionAbbreviation::CDH => String::from_str("Committee Discharged House"),
            BillTextVersionAbbreviation::CDS => String::from_str("Committee Discharged Senate"),
            BillTextVersionAbbreviation::CPH => String::from_str("Considered and Passed House"),
            BillTextVersionAbbreviation::CPS => String::from_str("Considered and Passed Senate"),
            BillTextVersionAbbreviation::EAH => String::from_str("Engrossed Amendment House"),
            BillTextVersionAbbreviation::EAS => String::from_str("Engrossed Amendment Senate"),
            BillTextVersionAbbreviation::EH => String::from_str("Engrossed in House"),
            BillTextVersionAbbreviation::ENR => String::from_str("Enrolled Bill"),
            BillTextVersionAbbreviation::ES => String::from_str("Engrossed in Senate"),
            BillTextVersionAbbreviation::FPH => String::from_str("Failed Passage House"),
            BillTextVersionAbbreviation::FPS => String::from_str("Failed Passage Senate"),
            BillTextVersionAbbreviation::HDS => String::from_str("Held at Desk Senate"),
            BillTextVersionAbbreviation::IH => String::from_str("Introduced in House"),
            BillTextVersionAbbreviation::IPH => String::from_str("Indefinitely Postponed House"),
            BillTextVersionAbbreviation::IPS => String::from_str("Indefinitely Postponed Senate"),
            BillTextVersionAbbreviation::IS => String::from_str("Introduced in Senate"),
            BillTextVersionAbbreviation::LTH => String::from_str("Laid on Table in House"),
            BillTextVersionAbbreviation::LTS => String::from_str("Laid on Table in Senate"),
            BillTextVersionAbbreviation::PAP => String::from_str("Printed as Passed"),
            BillTextVersionAbbreviation::PCS => String::from_str("Placed on Calendar Senate"),
            BillTextVersionAbbreviation::PP => String::from_str("Public Print"),
            BillTextVersionAbbreviation::PVTL => String::from_str("Private Law"),
            BillTextVersionAbbreviation::PL => String::from_str("Public Law"),
            BillTextVersionAbbreviation::RCH => String::from_str("Reference Change House"),
            BillTextVersionAbbreviation::RCS => String::from_str("Reference Change Senate"),
            BillTextVersionAbbreviation::RDS => String::from_str("Received in Senate"),
            BillTextVersionAbbreviation::RFH => String::from_str("Referred in House"),
            BillTextVersionAbbreviation::RFS => String::from_str("Referred in Senate"),
            BillTextVersionAbbreviation::RH => String::from_str("Reported in House"),
            BillTextVersionAbbreviation::RHUC => String::from_str("Returned to the House by Unanimous Consent"),
            BillTextVersionAbbreviation::RIH => String::from_str("Referral Instructions House"),
            BillTextVersionAbbreviation::RS => String::from_str("Reported to Senate"),
            BillTextVersionAbbreviation::RTH => String::from_str("Referred to Committee House"),
            BillTextVersionAbbreviation::RTS => String::from_str("Referred to Committee Senate"),
            BillTextVersionAbbreviation::SC => String::from_str("Sponsor Change"),
            BillTextVersionAbbreviation::STATPVT => String::from_str("Statutes at Large (Private Law)"),
            BillTextVersionAbbreviation::STAT => String::from_str("Statute"),
        }
    }
}

} // verus!
