use vstd::prelude::*;
use crate::fetch::PAGE_SIZE;
use crate::keyed::Keyed;
use crate::text::{decimal, int_text};

verus! {

/// The cloud platform's REST API.
#[derive(Debug)]
pub struct Akc {}

/// `s` followed by `t`.
fn concat(s: &str, t: &str) -> (r: String)
    ensures
        r@ == s@ + t@,
{
    let mut out = String::from_str(s);
    out.append(t);
    out
}

fn pair(k: &str, v: String) -> (r: Keyed<String>)
    ensures
        r.key@ == k@,
        r.value == v,
{
    Keyed { key: String::from_str(k), value: v }
}

/// The texts of `ws`, separated by commas.
pub open spec fn comma_joined(ws: Seq<String>) -> Seq<char>
    decreases ws.len(),
{
    if ws.len() == 0 {
        Seq::empty()
    } else if ws.len() == 1 {
        ws[0]@
    } else {
        comma_joined(ws.drop_last()) + ","@ + ws.last()@
    }
}

impl Akc {
    /// Where the API lives.
    pub fn base_url() -> (r: &'static str)
        ensures
            r@ == "https://api.artik.cloud/v1.1"@,
    {
        "https://api.artik.cloud/v1.1"
    }

    /// The profile of the credential's user.
    pub fn user_self_url() -> (r: String)
        ensures
            r@ == "https://api.artik.cloud/v1.1"@ + "/users/self"@,
    {
        concat(Self::base_url(), "/users/self")
    }

    /// The devices of the user `uid`.
    pub fn devices_url(uid: &str) -> (r: String)
        ensures
            r@ == "https://api.artik.cloud/v1.1"@ + "/users/"@ + uid@ + "/devices"@,
    {
        let mut out = concat(Self::base_url(), "/users/");
        out.append(uid);
        out.append("/devices");
        out
    }

    /// Every device type.
    pub fn device_types_url() -> (r: String)
        ensures
            r@ == "https://api.artik.cloud/v1.1"@ + "/devicetypes"@,
    {
        concat(Self::base_url(), "/devicetypes")
    }

    /// The latest readings of devices.
    pub fn snapshots_url() -> (r: String)
        ensures
            r@ == "https://api.artik.cloud/v1.1"@ + "/messages/snapshots"@,
    {
        concat(Self::base_url(), "/messages/snapshots")
    }

    /// The query of the page at `offset`: `offset` and a `count` of one page.
    pub fn page_query(offset: u32) -> (r: Vec<Keyed<String>>)
        ensures
            r@.len() == 2,
            r@[0].key@ == "offset"@,
            r@[0].value@ == decimal(offset as int),
            r@[1].key@ == "count"@,
            r@[1].value@ == decimal(PAGE_SIZE as int),
    {
        let mut q: Vec<Keyed<String>> = Vec::new();
        q.push(pair("offset", int_text(offset as i128)));
        q.push(pair("count", int_text(PAGE_SIZE as i128)));
        q
    }

    /// The query that asks for the snapshots of the devices `sdids`.
    pub fn snapshots_query(sdids: &Vec<String>) -> (r: Vec<Keyed<String>>)
        ensures
            r@.len() == 1,
            r@[0].key@ == "sdids"@,
            r@[0].value@ == comma_joined(sdids@),
    {
        let mut joined = String::new();
        let mut i: usize = 0;
        while i < sdids.len()
            invariant
                i <= sdids@.len(),
                joined@ == comma_joined(sdids@.take(i as int)),
            decreases sdids.len() - i,
        {
            assert(sdids@.take(i + 1).drop_last() =~= sdids@.take(i as int));
            if i > 0 {
                joined.append(",");
            }
            joined.append(sdids[i].as_str());
            i = i + 1;
            proof {
                if i == 1 {
                    assert(joined@ =~= comma_joined(sdids@.take(1)));
                }
            }
        }
        assert(sdids@.take(i as int) =~= sdids@);
        let mut q: Vec<Keyed<String>> = Vec::new();
        q.push(pair("sdids", joined));
        q
    }
}

} // verus!
