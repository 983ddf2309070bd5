//! The statistics reply: eight storage counts rendered into one display
//! page.

use vstd::prelude::*;

verus! {

use crate::paginate::mk_field;
use crate::paginate::Embed;
use crate::paginate::EmbedField;
use crate::paginate::EmbedView;
use crate::paginate::FieldView;
use crate::text::dec_digits;
use crate::text::u64_to_dec;
use vstd::string::*;

/// The counts the statistics command collects from storage: catalog-wide
/// totals and the invoking user's own key counts.
pub struct KeyStatistics {
    pub total_games: u64,
    pub total_users: u64,
    pub total_keys: u64,
    pub unused_keys: u64,
    pub used_keys: u64,
    pub total_keys_of_user: u64,
    pub unused_keys_of_user: u64,
    pub used_keys_of_user: u64,
}

/// The page the statistics command shows for the given counts.
pub open spec fn spec_statistics_embed(stats: KeyStatistics) -> EmbedView {
    EmbedView {
        color: None,
        title: "gemuki-bot statistics"@,
        description: Seq::empty(),
        url: None,
        image: None,
        fields: seq![
            FieldView { name: "Total games"@, value: dec_digits(stats.total_games as nat), inline: true },
            FieldView { name: "Total users"@, value: dec_digits(stats.total_users as nat), inline: true },
            FieldView { name: "Total keys"@, value: dec_digits(stats.total_keys as nat), inline: true },
            FieldView { name: "Unused keys"@, value: dec_digits(stats.unused_keys as nat), inline: true },
            FieldView { name: "Used keys"@, value: dec_digits(stats.used_keys as nat), inline: true },
            FieldView {
                name: "Owned keys"@,
                value: dec_digits(stats.total_keys_of_user as nat),
                inline: true,
            },
            FieldView {
                name: "Owned unused keys"@,
                value: dec_digits(stats.unused_keys_of_user as nat),
                inline: true,
            },
            FieldView {
                name: "Owned used keys"@,
                value: dec_digits(stats.used_keys_of_user as nat),
                inline: true,
            },
        ],
    }
}

/// Renders the statistics page for the given counts.
pub fn statistics_embed(stats: &KeyStatistics) -> (e: Embed)
    ensures
        e@ == spec_statistics_embed(*stats),
{
    let mut fields: Vec<EmbedField> = Vec::new();
    fields.push(mk_field("Total games", u64_to_dec(stats.total_games), true));
    fields.push(mk_field("Total users", u64_to_dec(stats.total_users), true));
    fields.push(mk_field("Total keys", u64_to_dec(stats.total_keys), true));
    fields.push(mk_field("Unused keys", u64_to_dec(stats.unused_keys), true));
    fields.push(mk_field("Used keys", u64_to_dec(stats.used_keys), true));
    fields.push(mk_field("Owned keys", u64_to_dec(stats.total_keys_of_user), true));
    fields.push(mk_field("Owned unused keys", u64_to_dec(stats.unused_keys_of_user), true));
    fields.push(mk_field("Owned used keys", u64_to_dec(stats.used_keys_of_user), true));
    let e = Embed {
        color: None,
        title: "gemuki-bot statistics".to_owned(),
        description: String::new(),
        url: None,
        image: None,
        fields,
    };
    proof {
        assert(e@ =~~= spec_statistics_embed(*stats));
    }
    e
}

} // verus!
