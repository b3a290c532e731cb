//! The names under which the store keeps the values of an enumeration.

use crate::application::{status_name, ApplicationStatus, Education, Gender, RaceEthnicity, Referrer};
use crate::text::same_text;
use vstd::prelude::*;

verus! {

/// The name under which a gender is stored.
pub open spec fn gender_name(value: Gender) -> Seq<char> {
    match value {
        Gender::Male => "male"@,
        Gender::Female => "female"@,
        Gender::NonBinary => "non-binary"@,
        Gender::Other => "other"@,
    }
}

/// The value that is stored under a name, if it is the name of a gender.
pub open spec fn gender_named(name: Seq<char>) -> Option<Gender> {
    if name == "male"@ {
        Some(Gender::Male)
    } else if name == "female"@ {
        Some(Gender::Female)
    } else if name == "non-binary"@ {
        Some(Gender::NonBinary)
    } else if name == "other"@ {
        Some(Gender::Other)
    } else {
        None
    }
}

impl Gender {
    /// The name under which the value is stored.
    pub fn to_str(self) -> (name: &'static str)
        ensures
            name@ == gender_name(self),
    {
        match self {
            Gender::Male => "male",
            Gender::Female => "female",
            Gender::NonBinary => "non-binary",
            Gender::Other => "other",
        }
    }

    /// The value that is stored under a name, if it is the name of one.
    pub fn from_name(name: &str) -> (value: Option<Gender>)
        ensures
            value == gender_named(name@),
    {
        if same_text(name, "male") {
            Some(Gender::Male)
        } else if same_text(name, "female") {
            Some(Gender::Female)
        } else if same_text(name, "non-binary") {
            Some(Gender::NonBinary)
        } else if same_text(name, "other") {
            Some(Gender::Other)
        } else {
            None
        }
    }
}

/// Each gender is found again under its name, and no two share a name.
pub proof fn law_gender_names(value: Gender, other: Gender)
    ensures
        gender_named(gender_name(value)) == Some(value),
        gender_name(value) == gender_name(other) ==> value == other,
{
    reveal_strlit("male");
    assert("male"@.len() == 4);
    reveal_strlit("female");
    assert("female"@.len() == 6);
    reveal_strlit("non-binary");
    assert("non-binary"@.len() == 10);
    reveal_strlit("other");
    assert("other"@.len() == 5);
}

/// The name under which a race or ethnicity is stored.
pub open spec fn race_ethnicity_name(value: RaceEthnicity) -> Seq<char> {
    match value {
        RaceEthnicity::AsianIndian => "asian-indian"@,
        RaceEthnicity::Black => "black"@,
        RaceEthnicity::Chinese => "chinese"@,
        RaceEthnicity::Filipino => "filipino"@,
        RaceEthnicity::Guamanian => "guamanian"@,
        RaceEthnicity::Hispanic => "hispanic"@,
        RaceEthnicity::Japanese => "japanese"@,
        RaceEthnicity::Korean => "korean"@,
        RaceEthnicity::MiddleEastern => "middle-eastern"@,
        RaceEthnicity::NativeAmerican => "native-american"@,
        RaceEthnicity::NativeHawaiian => "native-hawaiian"@,
        RaceEthnicity::Samoan => "samoan"@,
        RaceEthnicity::Vietnamese => "vietnamese"@,
        RaceEthnicity::White => "white"@,
        RaceEthnicity::OtherAsian => "other-asian"@,
        RaceEthnicity::OtherPacificIslander => "other-pacific-islander"@,
        RaceEthnicity::Other => "other"@,
    }
}

/// The value that is stored under a name, if it is the name of a race or ethnicity.
pub open spec fn race_ethnicity_named(name: Seq<char>) -> Option<RaceEthnicity> {
    if name == "asian-indian"@ {
        Some(RaceEthnicity::AsianIndian)
    } else if name == "black"@ {
        Some(RaceEthnicity::Black)
    } else if name == "chinese"@ {
        Some(RaceEthnicity::Chinese)
    } else if name == "filipino"@ {
        Some(RaceEthnicity::Filipino)
    } else if name == "guamanian"@ {
        Some(RaceEthnicity::Guamanian)
    } else if name == "hispanic"@ {
        Some(RaceEthnicity::Hispanic)
    } else if name == "japanese"@ {
        Some(RaceEthnicity::Japanese)
    } else if name == "korean"@ {
        Some(RaceEthnicity::Korean)
    } else if name == "middle-eastern"@ {
        Some(RaceEthnicity::MiddleEastern)
    } else if name == "native-american"@ {
        Some(RaceEthnicity::NativeAmerican)
    } else if name == "native-hawaiian"@ {
        Some(RaceEthnicity::NativeHawaiian)
    } else if name == "samoan"@ {
        Some(RaceEthnicity::Samoan)
    } else if name == "vietnamese"@ {
        Some(RaceEthnicity::Vietnamese)
    } else if name == "white"@ {
        Some(RaceEthnicity::White)
    } else if name == "other-asian"@ {
        Some(RaceEthnicity::OtherAsian)
    } else if name == "other-pacific-islander"@ {
        Some(RaceEthnicity::OtherPacificIslander)
    } else if name == "other"@ {
        Some(RaceEthnicity::Other)
    } else {
        None
    }
}

impl RaceEthnicity {
    /// The name under which the value is stored.
    pub fn to_str(self) -> (name: &'static str)
        ensures
            name@ == race_ethnicity_name(self),
    {
        match self {
            RaceEthnicity::AsianIndian => "asian-indian",
            RaceEthnicity::Black => "black",
            RaceEthnicity::Chinese => "chinese",
            RaceEthnicity::Filipino => "filipino",
            RaceEthnicity::Guamanian => "guamanian",
            RaceEthnicity::Hispanic => "hispanic",
            RaceEthnicity::Japanese => "japanese",
            RaceEthnicity::Korean => "korean",
            RaceEthnicity::MiddleEastern => "middle-eastern",
            RaceEthnicity::NativeAmerican => "native-american",
            RaceEthnicity::NativeHawaiian => "native-hawaiian",
            RaceEthnicity::Samoan => "samoan",
            RaceEthnicity::Vietnamese => "vietnamese",
            RaceEthnicity::White => "white",
            RaceEthnicity::OtherAsian => "other-asian",
            RaceEthnicity::OtherPacificIslander => "other-pacific-islander",
            RaceEthnicity::Other => "other",
        }
    }

    /// The value that is stored under a name, if it is the name of one.
    pub fn from_name(name: &str) -> (value: Option<RaceEthnicity>)
        ensures
            value == race_ethnicity_named(name@),
    {
        if same_text(name, "asian-indian") {
            Some(RaceEthnicity::AsianIndian)
        } else if same_text(name, "black") {
            Some(RaceEthnicity::Black)
        } else if same_text(name, "chinese") {
            Some(RaceEthnicity::Chinese)
        } else if same_text(name, "filipino") {
            Some(RaceEthnicity::Filipino)
        } else if same_text(name, "guamanian") {
            Some(RaceEthnicity::Guamanian)
        } else if same_text(name, "hispanic") {
            Some(RaceEthnicity::Hispanic)
        } else if same_text(name, "japanese") {
            Some(RaceEthnicity::Japanese)
        } else if same_text(name, "korean") {
            Some(RaceEthnicity::Korean)
        } else if same_text(name, "middle-eastern") {
            Some(RaceEthnicity::MiddleEastern)
        } else if same_text(name, "native-american") {
            Some(RaceEthnicity::NativeAmerican)
        } else if same_text(name, "native-hawaiian") {
            Some(RaceEthnicity::NativeHawaiian)
        } else if same_text(name, "samoan") {
            Some(RaceEthnicity::Samoan)
        } else if same_text(name, "vietnamese") {
            Some(RaceEthnicity::Vietnamese)
        } else if same_text(name, "white") {
            Some(RaceEthnicity::White)
        } else if same_text(name, "other-asian") {
            Some(RaceEthnicity::OtherAsian)
        } else if same_text(name, "other-pacific-islander") {
            Some(RaceEthnicity::OtherPacificIslander)
        } else if same_text(name, "other") {
            Some(RaceEthnicity::Other)
        } else {
            None
        }
    }
}

/// Each race or ethnicity is found again under its name, and no two share a name.
pub proof fn law_race_ethnicity_names(value: RaceEthnicity, other: RaceEthnicity)
    ensures
        race_ethnicity_named(race_ethnicity_name(value)) == Some(value),
        race_ethnicity_name(value) == race_ethnicity_name(other) ==> value == other,
{
    reveal_strlit("asian-indian");
    assert("asian-indian"@.len() == 12);
    reveal_strlit("black");
    assert("black"@.len() == 5);
    reveal_strlit("chinese");
    assert("chinese"@.len() == 7);
    reveal_strlit("filipino");
    assert("filipino"@.len() == 8);
    reveal_strlit("guamanian");
    assert("guamanian"@.len() == 9);
    reveal_strlit("hispanic");
    assert("hispanic"@.len() == 8);
    reveal_strlit("japanese");
    assert("japanese"@.len() == 8);
    reveal_strlit("korean");
    assert("korean"@.len() == 6);
    reveal_strlit("middle-eastern");
    assert("middle-eastern"@.len() == 14);
    reveal_strlit("native-american");
    assert("native-american"@.len() == 15);
    reveal_strlit("native-hawaiian");
    assert("native-hawaiian"@.len() == 15);
    reveal_strlit("samoan");
    assert("samoan"@.len() == 6);
    reveal_strlit("vietnamese");
    assert("vietnamese"@.len() == 10);
    reveal_strlit("white");
    assert("white"@.len() == 5);
    reveal_strlit("other-asian");
    assert("other-asian"@.len() == 11);
    reveal_strlit("other-pacific-islander");
    assert("other-pacific-islander"@.len() == 22);
    reveal_strlit("other");
    assert("other"@.len() == 5);
    assert("black"@[0] == 'b');
    assert("white"@[0] == 'w');
    assert("other"@[0] == 'o');
    assert("korean"@[0] == 'k');
    assert("samoan"@[0] == 's');
    assert("filipino"@[0] == 'f');
    assert("hispanic"@[0] == 'h');
    assert("japanese"@[0] == 'j');
    assert("native-american"@[7] == 'a');
    assert("native-hawaiian"@[7] == 'h');
}

/// The name under which a level of education is stored.
pub open spec fn education_name(value: Education) -> Seq<char> {
    match value {
        Education::BelowSecondary => "below-secondary"@,
        Education::Secondary => "secondary"@,
        Education::UndergraduateTwoYear => "undergraduate-two-year"@,
        Education::UndergraduateThreeYearPlus => "undergraduate-three-year-plus"@,
        Education::Graduate => "graduate"@,
        Education::Bootcamp => "bootcamp"@,
        Education::Vocational => "vocational"@,
        Education::Other => "other"@,
        Education::NonStudent => "non-student"@,
    }
}

/// The value that is stored under a name, if it is the name of a level of education.
pub open spec fn education_named(name: Seq<char>) -> Option<Education> {
    if name == "below-secondary"@ {
        Some(Education::BelowSecondary)
    } else if name == "secondary"@ {
        Some(Education::Secondary)
    } else if name == "undergraduate-two-year"@ {
        Some(Education::UndergraduateTwoYear)
    } else if name == "undergraduate-three-year-plus"@ {
        Some(Education::UndergraduateThreeYearPlus)
    } else if name == "graduate"@ {
        Some(Education::Graduate)
    } else if name == "bootcamp"@ {
        Some(Education::Bootcamp)
    } else if name == "vocational"@ {
        Some(Education::Vocational)
    } else if name == "other"@ {
        Some(Education::Other)
    } else if name == "non-student"@ {
        Some(Education::NonStudent)
    } else {
        None
    }
}

impl Education {
    /// The name under which the value is stored.
    pub fn to_str(self) -> (name: &'static str)
        ensures
            name@ == education_name(self),
    {
        match self {
            Education::BelowSecondary => "below-secondary",
            Education::Secondary => "secondary",
            Education::UndergraduateTwoYear => "undergraduate-two-year",
            Education::UndergraduateThreeYearPlus => "undergraduate-three-year-plus",
            Education::Graduate => "graduate",
            Education::Bootcamp => "bootcamp",
            Education::Vocational => "vocational",
            Education::Other => "other",
            Education::NonStudent => "non-student",
        }
    }

    /// The value that is stored under a name, if it is the name of one.
    pub fn from_name(name: &str) -> (value: Option<Education>)
        ensures
            value == education_named(name@),
    {
        if same_text(name, "below-secondary") {
            Some(Education::BelowSecondary)
        } else if same_text(name, "secondary") {
            Some(Education::Secondary)
        } else if same_text(name, "undergraduate-two-year") {
            Some(Education::UndergraduateTwoYear)
        } else if same_text(name, "undergraduate-three-year-plus") {
            Some(Education::UndergraduateThreeYearPlus)
        } else if same_text(name, "graduate") {
            Some(Education::Graduate)
        } else if same_text(name, "bootcamp") {
            Some(Education::Bootcamp)
        } else if same_text(name, "vocational") {
            Some(Education::Vocational)
        } else if same_text(name, "other") {
            Some(Education::Other)
        } else if same_text(name, "non-student") {
            Some(Education::NonStudent)
        } else {
            None
        }
    }
}

/// Each level of education is found again under its name, and no two share a name.
pub proof fn law_education_names(value: Education, other: Education)
    ensures
        education_named(education_name(value)) == Some(value),
        education_name(value) == education_name(other) ==> value == other,
{
    reveal_strlit("below-secondary");
    assert("below-secondary"@.len() == 15);
    reveal_strlit("secondary");
    assert("secondary"@.len() == 9);
    reveal_strlit("undergraduate-two-year");
    assert("undergraduate-two-year"@.len() == 22);
    reveal_strlit("undergraduate-three-year-plus");
    assert("undergraduate-three-year-plus"@.len() == 29);
    reveal_strlit("graduate");
    assert("graduate"@.len() == 8);
    reveal_strlit("bootcamp");
    assert("bootcamp"@.len() == 8);
    reveal_strlit("vocational");
    assert("vocational"@.len() == 10);
    reveal_strlit("other");
    assert("other"@.len() == 5);
    reveal_strlit("non-student");
    assert("non-student"@.len() == 11);
    assert("graduate"@[0] == 'g');
    assert("bootcamp"@[0] == 'b');
}

/// The name under which a referrer is stored.
pub open spec fn referrer_name(value: Referrer) -> Seq<char> {
    match value {
        Referrer::Search => "search"@,
        Referrer::Peer => "peer"@,
        Referrer::SocialMedia => "social-media"@,
        Referrer::Blog => "blog"@,
        Referrer::Advertisement => "advertisement"@,
        Referrer::StudentOrganization => "student-organization"@,
        Referrer::School => "school"@,
        Referrer::Other => "other"@,
    }
}

/// The value that is stored under a name, if it is the name of a referrer.
pub open spec fn referrer_named(name: Seq<char>) -> Option<Referrer> {
    if name == "search"@ {
        Some(Referrer::Search)
    } else if name == "peer"@ {
        Some(Referrer::Peer)
    } else if name == "social-media"@ {
        Some(Referrer::SocialMedia)
    } else if name == "blog"@ {
        Some(Referrer::Blog)
    } else if name == "advertisement"@ {
        Some(Referrer::Advertisement)
    } else if name == "student-organization"@ {
        Some(Referrer::StudentOrganization)
    } else if name == "school"@ {
        Some(Referrer::School)
    } else if name == "other"@ {
        Some(Referrer::Other)
    } else {
        None
    }
}

impl Referrer {
    /// The name under which the value is stored.
    pub fn to_str(self) -> (name: &'static str)
        ensures
            name@ == referrer_name(self),
    {
        match self {
            Referrer::Search => "search",
            Referrer::Peer => "peer",
            Referrer::SocialMedia => "social-media",
            Referrer::Blog => "blog",
            Referrer::Advertisement => "advertisement",
            Referrer::StudentOrganization => "student-organization",
            Referrer::School => "school",
            Referrer::Other => "other",
        }
    }

    /// The value that is stored under a name, if it is the name of one.
    pub fn from_name(name: &str) -> (value: Option<Referrer>)
        ensures
            value == referrer_named(name@),
    {
        if same_text(name, "search") {
            Some(Referrer::Search)
        } else if same_text(name, "peer") {
            Some(Referrer::Peer)
        } else if same_text(name, "social-media") {
            Some(Referrer::SocialMedia)
        } else if same_text(name, "blog") {
            Some(Referrer::Blog)
        } else if same_text(name, "advertisement") {
            Some(Referrer::Advertisement)
        } else if same_text(name, "student-organization") {
            Some(Referrer::StudentOrganization)
        } else if same_text(name, "school") {
            Some(Referrer::School)
        } else if same_text(name, "other") {
            Some(Referrer::Other)
        } else {
            None
        }
    }
}

/// Each referrer is found again under its name, and no two share a name.
pub proof fn law_referrer_names(value: Referrer, other: Referrer)
    ensures
        referrer_named(referrer_name(value)) == Some(value),
        referrer_name(value) == referrer_name(other) ==> value == other,
{
    reveal_strlit("search");
    assert("search"@.len() == 6);
    reveal_strlit("peer");
    assert("peer"@.len() == 4);
    reveal_strlit("social-media");
    assert("social-media"@.len() == 12);
    reveal_strlit("blog");
    assert("blog"@.len() == 4);
    reveal_strlit("advertisement");
    assert("advertisement"@.len() == 13);
    reveal_strlit("student-organization");
    assert("student-organization"@.len() == 20);
    reveal_strlit("school");
    assert("school"@.len() == 6);
    reveal_strlit("other");
    assert("other"@.len() == 5);
    assert("peer"@[0] == 'p');
    assert("blog"@[0] == 'b');
    assert("search"@[1] == 'e');
    assert("school"@[1] == 'c');
}

/// The value that is stored under a name, if it is the name of a status.
pub open spec fn status_named(name: Seq<char>) -> Option<ApplicationStatus> {
    if name == "pending"@ {
        Some(ApplicationStatus::Pending)
    } else if name == "waitlisted"@ {
        Some(ApplicationStatus::Waitlisted)
    } else if name == "rejected"@ {
        Some(ApplicationStatus::Rejected)
    } else if name == "accepted"@ {
        Some(ApplicationStatus::Accepted)
    } else {
        None
    }
}

impl ApplicationStatus {
    /// The value that is stored under a name, if it is the name of one.
    pub fn from_name(name: &str) -> (value: Option<ApplicationStatus>)
        ensures
            value == status_named(name@),
    {
        if same_text(name, "pending") {
            Some(ApplicationStatus::Pending)
        } else if same_text(name, "waitlisted") {
            Some(ApplicationStatus::Waitlisted)
        } else if same_text(name, "rejected") {
            Some(ApplicationStatus::Rejected)
        } else if same_text(name, "accepted") {
            Some(ApplicationStatus::Accepted)
        } else {
            None
        }
    }
}

/// Each status is found again under its name, and no two share a name.
pub proof fn law_status_names(value: ApplicationStatus, other: ApplicationStatus)
    ensures
        status_named(status_name(value)) == Some(value),
        status_name(value) == status_name(other) ==> value == other,
{
    reveal_strlit("pending");
    assert("pending"@.len() == 7);
    reveal_strlit("waitlisted");
    assert("waitlisted"@.len() == 10);
    reveal_strlit("rejected");
    assert("rejected"@.len() == 8);
    reveal_strlit("accepted");
    assert("accepted"@.len() == 8);
    assert("rejected"@[0] == 'r');
    assert("accepted"@[0] == 'a');
}

} // verus!
