use vstd::prelude::*;

verus! {

/// The rating of a pack's state of health.
#[derive(Clone, Copy, Debug, PartialEq, Eq, Structural)]
pub enum HealthRating {
    Unknown,
    Good,
    Fair,
    Poor,
}

/// The rating of a state of health given in hundredths of a percent: good
/// from 80%, fair from 60%, poor below; unknown without health data.
pub open spec fn spec_health_rating(soh_centi: Option<u16>) -> HealthRating {
    match soh_centi {
        None => HealthRating::Unknown,
        Some(h) => if h >= 8000 {
            HealthRating::Good
        } else if h >= 6000 {
            HealthRating::Fair
        } else {
            HealthRating::Poor
        },
    }
}

pub fn health_rating(soh_centi: Option<u16>) -> (r: HealthRating)
    ensures
        r == spec_health_rating(soh_centi),
{
    match soh_centi {
        None => HealthRating::Unknown,
        Some(h) => if h >= 8000 {
            HealthRating::Good
        } else if h >= 6000 {
            HealthRating::Fair
        } else {
            HealthRating::Poor
        },
    }
}

pub open spec fn rating_text(r: HealthRating) -> Seq<char> {
    match r {
        HealthRating::Unknown => "Unknown"@,
        HealthRating::Good => "Good"@,
        HealthRating::Fair => "Fair"@,
        HealthRating::Poor => "Poor"@,
    }
}

impl HealthRating {
    /// The word that a report shows for the rating.
    pub fn label(&self) -> (s: String)
        ensures
            s@ == rating_text(*self),
    {
        match self {
            HealthRating::Unknown => String::from_str("Unknown"),
            HealthRating::Good => String::from_str("Good"),
            HealthRating::Fair => String::from_str("Fair"),
            HealthRating::Poor => String::from_str("Poor"),
        }
    }
}

/// The health summary of a report without health data.
pub fn unknown_health_summary() -> (s: String)
    ensures
        s@ == "Health data is not available from this system."@,
{
    String::from_str("Health data is not available from this system.")
}

pub open spec fn spec_replacement_hint(vendor: Option<Seq<char>>, model: Option<Seq<char>>) -> Option<Seq<char>> {
    match (vendor, model) {
        (Some(v), Some(m)) => Some(
            "Search for a replacement using part number \""@ + m + "\" (vendor: "@ + v
                + "). Lenovo/ThinkPad batteries often use FRU or model numbers like this."@,
        ),
        (_, Some(m)) => Some("Search for a replacement using part number \""@ + m + "\"."@),
        _ => None,
    }
}

pub open spec fn opt_view(s: Option<&str>) -> Option<Seq<char>> {
    match s {
        Some(t) => Some(t@),
        None => None,
    }
}

pub open spec fn opt_string_view(s: Option<String>) -> Option<Seq<char>> {
    match s {
        Some(t) => Some(t@),
        None => None,
    }
}

/// The hint for finding a replacement pack: the model as part number, with
/// the vendor where it is known; no hint without a model.
pub fn build_replacement_hint(vendor: Option<&str>, model: Option<&str>) -> (r: Option<String>)
    ensures
        opt_string_view(r) == spec_replacement_hint(opt_view(vendor), opt_view(model)),
{
    match (vendor, model) {
        (Some(v), Some(m)) => {
            let mut s = String::from_str("Search for a replacement using part number \"");
            s.append(m);
            s.append("\" (vendor: ");
            s.append(v);
            s.append("). Lenovo/ThinkPad batteries often use FRU or model numbers like this.");
            Some(s)
        },
        (_, Some(m)) => {
            let mut s = String::from_str("Search for a replacement using part number \"");
            s.append(m);
            s.append("\".");
            Some(s)
        },
        _ => None,
    }
}

} // verus!
