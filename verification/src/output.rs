//! The badge that shows a score.

use vstd::prelude::*;
use vstd::string::*;

verus! {

/// The word on the badge for a score.
pub open spec fn badge_label(score: u32) -> Seq<char> {
    if score >= 9_000 {
        "excellent"@
    } else if score >= 8_000 {
        "good"@
    } else if score >= 7_000 {
        "fair"@
    } else if score >= 6_000 {
        "needs--improvement"@
    } else {
        "poor"@
    }
}

/// The colour of the badge for a score.
pub open spec fn badge_color(score: u32) -> Seq<char> {
    if score >= 9_000 {
        "brightgreen"@
    } else if score >= 8_000 {
        "green"@
    } else if score >= 7_000 {
        "yellow"@
    } else if score >= 6_000 {
        "orange"@
    } else {
        "red"@
    }
}

/// The address of the badge for a score.
pub open spec fn badge_url(score: u32) -> Seq<char> {
    "https://img.shields.io/badge/repo--health-"@ + badge_label(score) + "-"@ + badge_color(score)
        + "?style=flat-square&logo=github"@
}

/// The address of the badge that shows a score.
pub fn generate_badge_url(score: u32) -> (url: String)
    ensures
        url@ == badge_url(score),
{
    let (label, color) = if score >= 9_000 {
        ("excellent", "brightgreen")
    } else if score >= 8_000 {
        ("good", "green")
    } else if score >= 7_000 {
        ("fair", "yellow")
    } else if score >= 6_000 {
        ("needs--improvement", "orange")
    } else {
        ("poor", "red")
    };
    let mut url = String::from_str("https://img.shields.io/badge/repo--health-");
    url.append(label);
    url.append("-");
    url.append(color);
    url.append("?style=flat-square&logo=github");
    url
}

} // verus!
