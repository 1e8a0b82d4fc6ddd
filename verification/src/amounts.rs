//! The fixed rewards, in dollars.

use vstd::prelude::*;

use crate::types::{ONE_NEAR, USD};

verus! {

/// 4 dollars
pub const HACKATHON_COMPLETION_AMOUNT: USD = ONE_NEAR * 4;

/// 2 dollars
pub const MEME_CONTEST_COMPLETION_AMOUNT: USD = ONE_NEAR * 2;

/// 2 dollars
pub const WEBINAR_COMPLETION_AMOUNT: USD = ONE_NEAR * 2;

/// 2.5 dollars
pub const CONTENT_COORDINATION_AMOUNT: USD = (ONE_NEAR / 10) * 25;

/// 0.5 dollars
pub const CA_REGISTER_REFERRAL_AMOUNT: USD = (ONE_NEAR / 10) * 5;

/// 1 dollar
pub const RECRUITMENT_REFERRAL_AMOUNT: USD = ONE_NEAR;

/// 15 dollars
pub const HACKATHON_FIRST_PLACE_AMOUNT: USD = ONE_NEAR * 15;

/// 10 dollars
pub const HACKATHON_SECOND_PLACE_AMOUNT: USD = ONE_NEAR * 10;

/// 5 dollars
pub const HACKATHON_THIRD_PLACE_AMOUNT: USD = ONE_NEAR * 5;

/// 7.5 dollars
pub const MEME_CONTEST_FIRST_PLACE_AMOUNT: USD = (ONE_NEAR / 10) * 75;

/// 5 dollars
pub const MEME_CONTEST_SECOND_PLACE_AMOUNT: USD = ONE_NEAR * 5;

/// 2.5 dollars
pub const MEME_CONTEST_THIRD_PLACE_AMOUNT: USD = (ONE_NEAR / 10) * 25;

/// 0.5 dollars
pub const NCD_COMPLETION_REFERRAL_AMOUNT: USD = (ONE_NEAR / 10) * 5;

/// 0.1 dollars
pub const NCD_FORM_FILLED_REFERRAL_AMOUNT: USD = ONE_NEAR / 10;

/// 12.5 dollars
pub const CA_BONUS_AMOUNT: USD = (ONE_NEAR / 10) * 125;

/// 10 dollars
pub const CAMPUS_MOU_AMOUNT: USD = 10 * ONE_NEAR;

} // verus!
