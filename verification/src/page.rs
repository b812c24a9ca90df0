//! Pages and fetch requests: what the paginator asks the remote listing for,
//! and what one page of its answer looks like once translated into plain
//! values. The network call itself lives outside the library.

use vstd::prelude::*;

verus! {

/// The fixed attribute set every fetch requests from the remote listing.
#[derive(Clone, Copy, Debug, PartialEq, Eq, Structural)]
pub enum UserAttribute {
    Id,
    Username,
    Name,
    Verified,
    CreatedAt,
}

/// The fixed maximum page size every fetch requests.
pub const MAX_PAGE_RESULTS: u64 = 1000;

/// The attribute list every fetch carries, as a sequence.
pub open spec fn requested_attributes() -> Seq<UserAttribute> {
    seq![
        UserAttribute::Id,
        UserAttribute::Username,
        UserAttribute::Name,
        UserAttribute::Verified,
        UserAttribute::CreatedAt,
    ]
}

/// One observation of a remote entity within a page.
pub struct Observation {
    /// Remote-assigned stable unique id.
    pub id: String,
    /// The handle observed this time.
    pub username: String,
    /// The display name observed this time.
    pub display_name: String,
}

/// Mathematical model of one observation.
pub ghost struct ObsModel {
    pub id: Seq<char>,
    pub handle: Seq<char>,
    pub name: Seq<char>,
}

impl View for Observation {
    type V = ObsModel;

    open spec fn view(&self) -> ObsModel {
        ObsModel { id: self.id@, handle: self.username@, name: self.display_name@ }
    }
}

/// What a paginated fetch is built from. Absence of a cursor means "from the
/// start"; a present cursor is never the empty string, because the remote
/// rejects an explicitly empty pagination parameter — absence must be encoded
/// by omitting the parameter.
pub struct FetchRequest {
    pub attributes: Vec<UserAttribute>,
    pub max_results: u64,
    pub cursor: Option<String>,
}

impl FetchRequest {
    /// A present cursor is never empty.
    pub open spec fn wf(&self) -> bool {
        self.cursor matches Some(c) ==> c@.len() > 0
    }
}

/// Builds the fetch request for one page: the fixed attribute set, the fixed
/// maximum page size, and the cursor exactly as handed in. Callers must pass
/// true absence, never an empty string.
pub fn request_for(cursor: Option<String>) -> (r: FetchRequest)
    requires
        cursor matches Some(c) ==> c@.len() > 0,
    ensures
        r.cursor == cursor,
        r.max_results == MAX_PAGE_RESULTS,
        r.attributes@ == requested_attributes(),
        r.wf(),
{
    let attributes = vec![
        UserAttribute::Id,
        UserAttribute::Username,
        UserAttribute::Name,
        UserAttribute::Verified,
        UserAttribute::CreatedAt,
    ];
    proof {
        assert(attributes@ =~= requested_attributes());
    }
    FetchRequest { attributes, max_results: MAX_PAGE_RESULTS, cursor }
}

/// One page of the remote listing, already translated to plain values.
pub struct Page {
    /// The entities observed on this page, in the remote's order (the order
    /// carries no meaning for reconciliation).
    pub entities: Vec<Observation>,
    /// The continuation token for the next page; absent when the remote
    /// reported no further pages.
    pub next_cursor: Option<String>,
    /// The result count the remote reported for this page.
    pub result_count: u64,
}

impl Page {
    /// A present continuation token is never empty.
    pub open spec fn wf(&self) -> bool {
        self.next_cursor matches Some(c) ==> c@.len() > 0
    }

    /// The models of this page's observations, in page order.
    pub open spec fn obs(&self) -> Seq<ObsModel> {
        self.entities@.map_values(|o: Observation| o@)
    }
}

/// Translates one remote answer into a page. The remote encodes "no further
/// pages" by omitting the continuation token; a token it did send is kept as
/// is, except that an empty token is treated as absence too, so that no later
/// fetch can ever be built around an empty cursor.
pub fn page_from_remote(entities: Vec<Observation>, next_token: Option<String>, result_count: u64) -> (p: Page)
    ensures
        p.entities == entities,
        p.result_count == result_count,
        match next_token {
            Some(t) => if t@.len() == 0 {
                p.next_cursor is None
            } else {
                p.next_cursor == Some(t)
            },
            None => p.next_cursor is None,
        },
        p.wf(),
{
    let next_cursor = match next_token {
        Some(t) => {
            if t.as_str().is_empty() {
                None
            } else {
                Some(t)
            }
        },
        None => None,
    };
    Page { entities, next_cursor, result_count }
}

} // verus!
