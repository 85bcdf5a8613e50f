use vstd::prelude::*;
use vstd::string::StrSliceExecFns;
use crate::accounts::CreateExperience;
use crate::error::ErrorCode;
use crate::events::ExperienceCreated;
use crate::state::Experience;

verus! {

/// Why an experience with these fields is refused, if it is. The title is
/// looked at first, then the location, the price and the description.
pub open spec fn create_experience_rejection(
    title: Seq<char>,
    location: Seq<char>,
    description: Seq<char>,
    price_lamports: u64,
) -> Option<ErrorCode> {
    if title.len() > Experience::MAX_TITLE_LEN {
        Some(ErrorCode::TitleTooLong)
    } else if title.len() == 0 {
        Some(ErrorCode::TitleEmpty)
    } else if location.len() > Experience::MAX_LOCATION_LEN {
        Some(ErrorCode::LocationTooLong)
    } else if location.len() == 0 {
        Some(ErrorCode::LocationEmpty)
    } else if price_lamports == 0 {
        Some(ErrorCode::InvalidPrice)
    } else if description.len() > Experience::MAX_DESCRIPTION_LEN {
        Some(ErrorCode::DescriptionTooLong)
    } else {
        None
    }
}

/// Publishes an experience of the calling organiser: it starts without slots
/// and without a cancellation fee. When the fields are refused, nothing
/// changes.
pub fn create_experience(
    ctx: &mut CreateExperience,
    title: String,
    location: String,
    description: String,
    price_lamports: u64,
) -> (r: Result<ExperienceCreated, ErrorCode>)
    ensures
        match r {
            Ok(event) => {
                &&& create_experience_rejection(title@, location@, description@, price_lamports)
                    is None
                &&& *final(ctx) == (CreateExperience {
                    experience: Some(
                        Experience {
                            organiser: old(ctx).organiser,
                            title,
                            description,
                            location: Some(location),
                            price_lamports,
                            cancellation_fee_percent: 0,
                            time_slot_count: 0,
                        },
                    ),
                    ..*old(ctx)
                })
                &&& final(ctx).experience->0.wf()
                &&& event == (ExperienceCreated {
                    organiser: old(ctx).organiser,
                    experience: old(ctx).experience_key,
                    title,
                })
            },
            Err(e) => {
                &&& create_experience_rejection(title@, location@, description@, price_lamports)
                    == Some(e)
                &&& *final(ctx) == *old(ctx)
            },
        },
{
    let title_len = title.as_str().unicode_len();
    if title_len > Experience::MAX_TITLE_LEN {
        return Err(ErrorCode::TitleTooLong);
    }
    if title_len == 0 {
        return Err(ErrorCode::TitleEmpty);
    }
    let location_len = location.as_str().unicode_len();
    if location_len > Experience::MAX_LOCATION_LEN {
        return Err(ErrorCode::LocationTooLong);
    }
    if location_len == 0 {
        return Err(ErrorCode::LocationEmpty);
    }
    if price_lamports == 0 {
        return Err(ErrorCode::InvalidPrice);
    }
    if description.as_str().unicode_len() > Experience::MAX_DESCRIPTION_LEN {
        return Err(ErrorCode::DescriptionTooLong);
    }
    let event = ExperienceCreated {
        organiser: ctx.organiser,
        experience: ctx.experience_key,
        title: title.clone(),
    };
    ctx.experience = Some(
        Experience {
            organiser: ctx.organiser,
            title,
            description,
            location: Some(location),
            price_lamports,
            cancellation_fee_percent: 0,
            time_slot_count: 0,
        },
    );
    Ok(event)
}

} // verus!
