//! Shapes of the catalog data that the external metadata service reports,
//! and the pure filtering steps applied to it. Fetching and decoding the
//! service's responses is transport work and stays outside the library;
//! the decoded values are handed in as these plain records.

use vstd::prelude::*;

verus! {

use crate::records::GameRecord;

/// One entry of the service's full app list.
pub struct App {
    appid: u32,
    name: String,
}

impl App {
    pub closed spec fn spec_appid(&self) -> u32 {
        self.appid
    }

    pub closed spec fn spec_name(&self) -> Seq<char> {
        self.name@
    }

    pub fn new(appid: u32, name: String) -> (a: Self)
        ensures
            a.spec_appid() == appid,
            a.spec_name() == name@,
    {
        App { appid, name }
    }

    pub fn appid(&self) -> (r: u32)
        ensures
            r == self.spec_appid(),
    {
        self.appid
    }

    pub fn name(&self) -> (r: &str)
        ensures
            r@ == self.spec_name(),
    {
        self.name.as_str()
    }
}

impl Clone for App {
    fn clone(&self) -> (r: Self)
        ensures
            r == *self,
    {
        App { appid: self.appid, name: self.name.clone() }
    }
}

/// The app list inside the service's response envelope.
pub struct Applist {
    apps: Vec<App>,
}

impl Applist {
    pub closed spec fn spec_apps(&self) -> Seq<App> {
        self.apps@
    }

    pub fn new(apps: Vec<App>) -> (l: Self)
        ensures
            l.spec_apps() == apps@,
    {
        Applist { apps }
    }

    pub fn apps(&self) -> (r: &Vec<App>)
        ensures
            r@ == self.spec_apps(),
    {
        &self.apps
    }
}

/// The envelope of the service's full app list response.
pub struct ApplistResponse {
    applist: Applist,
}

impl ApplistResponse {
    pub closed spec fn spec_applist(&self) -> Applist {
        self.applist
    }

    pub fn new(applist: Applist) -> (r: Self)
        ensures
            r.spec_applist() == applist,
    {
        ApplistResponse { applist }
    }

    pub fn applist(&self) -> (r: &Applist)
        ensures
            *r == self.spec_applist(),
    {
        &self.applist
    }
}

/// Price information inside an app's detail record.
pub struct PriceOverview {
    pub currency: String,
    pub initial: u32,
    pub final_value: u32,
    pub discount_percent: u8,
    pub initial_formatted: String,
    pub final_formatted: String,
}

/// The detail record the service reports for a single app.
pub struct AppDetails {
    pub app_type: String,
    pub name: String,
    pub steam_appid: u32,
    pub is_free: bool,
    pub detailed_description: String,
    pub about_the_game: String,
    pub short_description: String,
    pub header_image: String,
    pub website: String,
    pub price_overview: PriceOverview,
}

/// The envelope around an app's detail record.
pub struct GameData {
    pub success: bool,
    pub data: AppDetails,
}

/// What an app's name contributes after trimming, named after `str::trim`.
pub uninterp spec fn trim_of(s: Seq<char>) -> Seq<char>;

/// Relies on str::trim: which leading and trailing whitespace is removed
/// depends on the characters alone.
#[verifier::external_body]
fn trimmed(s: &str) -> (r: &str)
    ensures
        r@ == trim_of(s@),
{
    s.trim()
}

/// An app worth keeping: its name is not blank.
pub open spec fn has_visible_name(a: App) -> bool {
    trim_of(a.spec_name()).len() != 0
}

/// Drops the apps whose name is empty or whitespace, keeping the order of
/// the rest.
pub fn keep_named_apps(apps: Vec<App>) -> (r: Vec<App>)
    ensures
        r@ == apps@.filter(|a: App| has_visible_name(a)),
{
    let mut out: Vec<App> = Vec::new();
    let mut i: usize = 0;
    proof {
        reveal(Seq::filter);
        assert(apps@.subrange(0, 0).filter(|a: App| has_visible_name(a)) =~= Seq::<App>::empty());
    }
    while i < apps.len()
        invariant
            i <= apps.len(),
            out@ == apps@.subrange(0, i as int).filter(|a: App| has_visible_name(a)),
        decreases apps.len() - i,
    {
        let keep = !trimmed(apps[i].name()).is_empty();
        if keep {
            out.push(apps[i].clone());
        }
        proof {
            reveal(Seq::filter);
            let prefix = apps@.subrange(0, i + 1);
            assert(prefix.drop_last() =~= apps@.subrange(0, i as int));
            assert(prefix.last() == apps@[i as int]);
        }
        i += 1;
    }
    proof {
        assert(apps@.subrange(0, apps@.len() as int) =~= apps@);
    }
    out
}

/// Builds the game row that a quick setup creates from the service's detail
/// record: the reported name becomes the title, the short description the
/// description, and the header image the image link.
pub fn game_from_app_details(details: &AppDetails, now: String, author: i64) -> (g: GameRecord)
    ensures
        g.id == 0,
        g.title == details.name,
        g.description == Some(details.short_description),
        g.image_link == Some(details.header_image),
        g.create_date == now,
        g.create_user_id == author,
        g.modify_date is None,
        g.modify_user_id is None,
{
    GameRecord {
        id: 0,
        title: details.name.clone(),
        description: Some(details.short_description.clone()),
        image_link: Some(details.header_image.clone()),
        create_date: now,
        create_user_id: author,
        modify_date: None,
        modify_user_id: None,
    }
}

} // verus!
