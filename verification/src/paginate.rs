//! The interactive paginator: a fixed, pre-fetched sequence of items is
//! rendered one page at a time, and two controls step through it with
//! circular wraparound. The chat platform delivers control presses and a
//! final idle timeout; both are handed to the session as plain values, and
//! the session answers with what to display. Rendering is a pure formatting
//! step, so nothing can fail once a session has started.

use vstd::prelude::*;

verus! {

use crate::records::GameDetailModel;
use crate::records::GameKeyModel;
use crate::records::KeylistRecord;
use crate::text::dec_digits;
use crate::text::int_dec_digits;
use crate::text::u64_to_dec;
use vstd::string::*;

/// How long a session waits for a press before it times out: 24 hours.
/// The shell around the library runs the wait with this bound and calls
/// `note_timeout` when it elapses.
pub const IDLE_TIMEOUT_SECONDS: u64 = 86400;

/// The accent colour used for game detail pages.
pub const COLOR_DARK_BLUE: u32 = 0x206694;

/// The accent colour used for keylist pages.
pub const COLOR_DARKER_GREY: u32 = 0x546E7A;

/// One labelled line of a display page.
pub struct EmbedField {
    pub name: String,
    pub value: String,
    pub inline: bool,
}

/// A single display page: what one chat message shows for one item.
pub struct Embed {
    pub color: Option<u32>,
    pub title: String,
    pub description: String,
    pub url: Option<String>,
    pub image: Option<String>,
    pub fields: Vec<EmbedField>,
}

/// Mathematical image of an `EmbedField`.
#[verifier::ext_equal]
pub struct FieldView {
    pub name: Seq<char>,
    pub value: Seq<char>,
    pub inline: bool,
}

/// Mathematical image of an `Embed`.
#[verifier::ext_equal]
pub struct EmbedView {
    pub color: Option<u32>,
    pub title: Seq<char>,
    pub description: Seq<char>,
    pub url: Option<Seq<char>>,
    pub image: Option<Seq<char>>,
    pub fields: Seq<FieldView>,
}

impl View for EmbedField {
    type V = FieldView;

    open spec fn view(&self) -> FieldView {
        FieldView { name: self.name@, value: self.value@, inline: self.inline }
    }
}

/// The character image of an optional text field.
pub open spec fn view_opt(o: Option<String>) -> Option<Seq<char>> {
    match o {
        Some(s) => Some(s@),
        None => None,
    }
}

impl View for Embed {
    type V = EmbedView;

    open spec fn view(&self) -> EmbedView {
        EmbedView {
            color: self.color,
            title: self.title@,
            description: self.description@,
            url: view_opt(self.url),
            image: view_opt(self.image),
            fields: self.fields@.map_values(|f: EmbedField| f@),
        }
    }
}

/// The text of an optional field, with the fixed fallback the pages show
/// for an absent value.
pub open spec fn spec_text_or_none(o: Option<String>) -> Seq<char> {
    match o {
        Some(s) => s@,
        None => "None"@,
    }
}

/// Renders an optional text field, falling back to `"None"`.
pub fn text_or_none(o: &Option<String>) -> (r: String)
    ensures
        r@ == spec_text_or_none(*o),
{
    match o {
        Some(s) => s.clone(),
        None => "None".to_owned(),
    }
}

/// Builds one labelled line.
pub fn mk_field(name: &str, value: String, inline: bool) -> (f: EmbedField)
    ensures
        f@ == (FieldView { name: name@, value: value@, inline }),
{
    EmbedField { name: name.to_owned(), value, inline }
}

/// The capability of producing one display page. The paginator is generic
/// over exactly this: any item that renders to a page can be paged through.
pub trait PaginationEmbed {
    /// The page this item renders to.
    spec fn spec_embed(&self) -> EmbedView;

    /// Pure rendering: builds exactly the specified page.
    fn create_embed(&self) -> (e: Embed)
        ensures
            e@ == self.spec_embed(),
    ;
}

impl PaginationEmbed for GameKeyModel {
    open spec fn spec_embed(&self) -> EmbedView {
        EmbedView {
            color: None,
            title: self.game.title@ + " Key-Id "@ + int_dec_digits(self.game_key.id as int),
            description: spec_text_or_none(self.game.description),
            url: view_opt(self.game_key.page_link),
            image: view_opt(self.game.image_link),
            fields: seq![
                FieldView { name: "Platform"@, value: self.platform.name@, inline: true },
                FieldView { name: "State"@, value: self.game_key.keystate@, inline: true },
                FieldView {
                    name: "Create date"@,
                    value: self.game_key.create_date@,
                    inline: false,
                },
                FieldView {
                    name: "Create user id"@,
                    value: int_dec_digits(self.game_key.create_user_id as int),
                    inline: false,
                },
                FieldView {
                    name: "Modify date"@,
                    value: spec_text_or_none(self.game_key.modify_date),
                    inline: false,
                },
                FieldView {
                    name: "Modify user id"@,
                    value: int_dec_digits(
                        match self.game_key.modify_user_id {
                            Some(u) => u as int,
                            None => 0,
                        },
                    ),
                    inline: false,
                },
            ],
        }
    }

    fn create_embed(&self) -> (e: Embed) {
        let mut title = self.game.title.clone();
        title.append(" Key-Id ");
        let id_text = crate::text::i64_to_dec(self.game_key.id as i64);
        title.append(id_text.as_str());

        let modify_user = match self.game_key.modify_user_id {
            Some(u) => u,
            None => 0,
        };

        let mut fields: Vec<EmbedField> = Vec::new();
        fields.push(mk_field("Platform", self.platform.name.clone(), true));
        fields.push(mk_field("State", self.game_key.keystate.clone(), true));
        fields.push(mk_field("Create date", self.game_key.create_date.clone(), false));
        fields.push(
            mk_field("Create user id", crate::text::i64_to_dec(self.game_key.create_user_id), false),
        );
        fields.push(mk_field("Modify date", text_or_none(&self.game_key.modify_date), false));
        fields.push(mk_field("Modify user id", crate::text::i64_to_dec(modify_user), false));

        let e = Embed {
            color: None,
            title,
            description: text_or_none(&self.game.description),
            url: crate::records::clone_opt_string(&self.game_key.page_link),
            image: crate::records::clone_opt_string(&self.game.image_link),
            fields,
        };
        proof {
            assert(e@ =~~= self.spec_embed());
        }
        e
    }
}

impl PaginationEmbed for GameDetailModel {
    open spec fn spec_embed(&self) -> EmbedView {
        EmbedView {
            color: Some(COLOR_DARK_BLUE),
            title: self.title@,
            description: spec_text_or_none(self.description),
            url: None,
            image: view_opt(self.image_link),
            fields: seq![
                FieldView { name: "Id"@, value: int_dec_digits(self.id as int), inline: true },
                FieldView { name: "Keys"@, value: dec_digits(self.key_count as nat), inline: true },
            ],
        }
    }

    fn create_embed(&self) -> (e: Embed) {
        let mut fields: Vec<EmbedField> = Vec::new();
        fields.push(mk_field("Id", crate::text::i64_to_dec(self.id as i64), true));
        fields.push(mk_field("Keys", u64_to_dec(self.key_count), true));
        let e = Embed {
            color: Some(COLOR_DARK_BLUE),
            title: self.title.clone(),
            description: text_or_none(&self.description),
            url: None,
            image: crate::records::clone_opt_string(&self.image_link),
            fields,
        };
        proof {
            assert(e@ =~~= self.spec_embed());
        }
        e
    }
}

impl PaginationEmbed for KeylistRecord {
    open spec fn spec_embed(&self) -> EmbedView {
        EmbedView {
            color: Some(COLOR_DARKER_GREY),
            title: self.name@,
            description: spec_text_or_none(self.description),
            url: None,
            image: None,
            fields: seq![
                FieldView { name: "Id"@, value: int_dec_digits(self.id as int), inline: true },
            ],
        }
    }

    fn create_embed(&self) -> (e: Embed) {
        let mut fields: Vec<EmbedField> = Vec::new();
        fields.push(mk_field("Id", crate::text::i64_to_dec(self.id as i64), true));
        let e = Embed {
            color: Some(COLOR_DARKER_GREY),
            title: self.name.clone(),
            description: text_or_none(&self.description),
            url: None,
            image: None,
            fields,
        };
        proof {
            assert(e@ =~~= self.spec_embed());
        }
        e
    }
}

/// The identifier of this session's "previous" control: the session token
/// in decimal, then `prev`.
pub open spec fn spec_prev_id(session_id: u64) -> Seq<char> {
    dec_digits(session_id as nat) + "prev"@
}

/// The identifier of this session's "next" control.
pub open spec fn spec_next_id(session_id: u64) -> Seq<char> {
    dec_digits(session_id as nat) + "next"@
}

/// Builds the "previous" control identifier for a session token.
pub fn prev_control_id(session_id: u64) -> (s: String)
    ensures
        s@ == spec_prev_id(session_id),
{
    let mut s = u64_to_dec(session_id);
    s.append("prev");
    s
}

/// Builds the "next" control identifier for a session token.
pub fn next_control_id(session_id: u64) -> (s: String)
    ensures
        s@ == spec_next_id(session_id),
{
    let mut s = u64_to_dec(session_id);
    s.append("next");
    s
}

/// Whether a session still reacts to presses. The one transition is
/// `Active` to `TimedOut` when the idle timeout elapses; there is no way
/// back, so a timed-out session's controls are inert.
#[derive(Clone, Copy)]
pub enum SessionState {
    Active,
    TimedOut,
}

/// What a session did with a delivered press.
#[derive(PartialEq, Eq, Structural, Debug)]
pub enum PressOutcome {
    /// The press matched one of this session's controls; the shown page
    /// changed and the message is to be edited in place.
    Updated,
    /// The press belonged to some other control, or the session had already
    /// timed out; nothing changed.
    Ignored,
}

/// The index shown after one "next" press: one step forward, wrapping past
/// the last page to the first.
pub open spec fn spec_next_index(i: int, n: int) -> int {
    if i + 1 == n {
        0
    } else {
        i + 1
    }
}

/// The index shown after one "previous" press: one step back, wrapping
/// before the first page to the last.
pub open spec fn spec_prev_index(i: int, n: int) -> int {
    if i == 0 {
        n - 1
    } else {
        i - 1
    }
}

/// One pagination session: the items fixed at session start, the index of
/// the page on display, the two control identifiers derived from the
/// session token, and whether the session still reacts.
pub struct PaginationSession<T> {
    pages: Vec<T>,
    current_index: usize,
    prev_id: String,
    next_id: String,
    state: SessionState,
}

impl<T: PaginationEmbed> PaginationSession<T> {
    /// The items being paged through, fixed at session start.
    pub closed spec fn spec_pages(&self) -> Seq<T> {
        self.pages@
    }

    /// The index of the page on display.
    pub closed spec fn spec_index(&self) -> int {
        self.current_index as int
    }

    /// This session's "previous" control identifier.
    pub closed spec fn spec_prev_control(&self) -> Seq<char> {
        self.prev_id@
    }

    /// This session's "next" control identifier.
    pub closed spec fn spec_next_control(&self) -> Seq<char> {
        self.next_id@
    }

    /// Whether the session still reacts to presses.
    pub closed spec fn spec_state(&self) -> SessionState {
        self.state
    }

    /// Sessions are well formed: at least one page, the shown index in
    /// range, and the two controls distinct.
    pub open spec fn wf(&self) -> bool {
        &&& self.spec_pages().len() > 0
        &&& 0 <= self.spec_index() < self.spec_pages().len()
        &&& self.spec_prev_control() != self.spec_next_control()
    }

    /// Opens a session on a non-empty item sequence. The caller answers the
    /// empty case with its own "no results" reply before ever paginating.
    /// The first page is on display and the session reacts to presses.
    pub fn new(pages: Vec<T>, session_id: u64) -> (s: Self)
        requires
            pages@.len() > 0,
        ensures
            s.wf(),
            s.spec_pages() == pages@,
            s.spec_index() == 0,
            s.spec_prev_control() == spec_prev_id(session_id),
            s.spec_next_control() == spec_next_id(session_id),
            s.spec_state() == SessionState::Active,
    {
        proof {
            assert(spec_prev_id(session_id) != spec_next_id(session_id)) by {
                reveal_strlit("prev");
                reveal_strlit("next");
                let d = dec_digits(session_id as nat).len() as int;
                assert(spec_prev_id(session_id)[d] == 'p');
                assert(spec_next_id(session_id)[d] == 'n');
            }
        }
        PaginationSession {
            pages,
            current_index: 0,
            prev_id: prev_control_id(session_id),
            next_id: next_control_id(session_id),
            state: SessionState::Active,
        }
    }

    /// The number of pages.
    pub fn page_count(&self) -> (n: usize)
        ensures
            n == self.spec_pages().len(),
    {
        self.pages.len()
    }

    /// The index of the page on display.
    pub fn current_index(&self) -> (i: usize)
        ensures
            i == self.spec_index(),
    {
        self.current_index
    }

    /// Whether the session still reacts to presses.
    pub fn is_active(&self) -> (r: bool)
        ensures
            r == (self.spec_state() == SessionState::Active),
    {
        match self.state {
            SessionState::Active => true,
            SessionState::TimedOut => false,
        }
    }

    /// Renders the page on display.
    pub fn current_embed(&self) -> (e: Embed)
        requires
            self.wf(),
        ensures
            e@ == self.spec_pages()[self.spec_index()].spec_embed(),
    {
        self.pages[self.current_index].create_embed()
    }

    /// Feeds one delivered control press to the session. A press on this
    /// session's "next" control advances the shown index with wraparound,
    /// one on its "previous" control steps back with wraparound, and any
    /// other identifier — a stale or foreign control — changes nothing.
    /// A timed-out session ignores every press.
    pub fn handle_press(&mut self, control_id: &str) -> (r: PressOutcome)
        requires
            old(self).wf(),
        ensures
            final(self).wf(),
            final(self).spec_pages() == old(self).spec_pages(),
            final(self).spec_prev_control() == old(self).spec_prev_control(),
            final(self).spec_next_control() == old(self).spec_next_control(),
            final(self).spec_state() == old(self).spec_state(),
            ({
                let n = old(self).spec_pages().len() as int;
                let i = old(self).spec_index();
                if old(self).spec_state() is TimedOut {
                    final(self).spec_index() == i && r == PressOutcome::Ignored
                } else if control_id@ == old(self).spec_next_control() {
                    final(self).spec_index() == spec_next_index(i, n) && r
                        == PressOutcome::Updated
                } else if control_id@ == old(self).spec_prev_control() {
                    final(self).spec_index() == spec_prev_index(i, n) && r
                        == PressOutcome::Updated
                } else {
                    final(self).spec_index() == i && r == PressOutcome::Ignored
                }
            }),
    {
        match self.state {
            SessionState::TimedOut => PressOutcome::Ignored,
            SessionState::Active => {
                let pressed = control_id.to_owned();
                let n = self.pages.len();
                if pressed == self.next_id {
                    self.current_index = if self.current_index + 1 == n {
                        0
                    } else {
                        self.current_index + 1
                    };
                    PressOutcome::Updated
                } else if pressed == self.prev_id {
                    self.current_index = if self.current_index == 0 {
                        n - 1
                    } else {
                        self.current_index - 1
                    };
                    PressOutcome::Updated
                } else {
                    PressOutcome::Ignored
                }
            },
        }
    }

    /// Records that the idle timeout elapsed. The controls stay visible but
    /// inert: from here on every press is ignored.
    pub fn note_timeout(&mut self)
        ensures
            final(self).spec_pages() == old(self).spec_pages(),
            final(self).spec_index() == old(self).spec_index(),
            final(self).spec_prev_control() == old(self).spec_prev_control(),
            final(self).spec_next_control() == old(self).spec_next_control(),
            final(self).spec_state() == SessionState::TimedOut,
            old(self).wf() ==> final(self).wf(),
    {
        self.state = SessionState::TimedOut;
    }
}

/// The index reached from `i` after `k` "next" presses on `n` pages.
pub open spec fn spec_advance(i: int, n: int, k: nat) -> int
    decreases k,
{
    if k == 0 {
        i
    } else {
        spec_next_index(spec_advance(i, n, (k - 1) as nat), n)
    }
}

/// Closed form of repeated "next" presses: as long as no more than `n`
/// presses are taken, the index moves forward and wraps at most once.
pub proof fn lemma_advance_formula(i: int, n: int, k: nat)
    requires
        0 <= i < n,
        k <= n,
    ensures
        spec_advance(i, n, k) == if i + k < n {
            i + k
        } else {
            i + k - n
        },
    decreases k,
{
    if k > 0 {
        lemma_advance_formula(i, n, (k - 1) as nat);
    }
}

/// Pressing "next" as many times as there are pages cycles back to the
/// page the session started the round on: the shown index has period `n`.
pub proof fn lemma_next_presses_cycle(i: int, n: int)
    requires
        0 <= i < n,
    ensures
        spec_advance(i, n, n as nat) == i,
{
    lemma_advance_formula(i, n, n as nat);
}

/// Pressing "previous" while the first page is shown wraps to the last
/// page.
pub proof fn lemma_prev_from_first_wraps(n: int)
    requires
        n > 0,
    ensures
        spec_prev_index(0, n) == n - 1,
{
}

} // verus!
