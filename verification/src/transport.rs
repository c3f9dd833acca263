//! Canonical resource addresses on the realtime backend, and the payload
//! carried by a pairing message.
//!
//! An address reads `base/category/id[/message]/.json/`: the category is
//! `"c"` for a challenge resource and `"i"` for an enrollment-info
//! resource.  Opening connections, publishing and deleting are network
//! work and stay outside the library; they receive these addresses as
//! plain strings.
use vstd::prelude::*;
use vstd::string::*;

verus! {

/// The canonical address of a resource, as a character sequence.
pub open spec fn spec_build_url(
    base: Seq<char>,
    category: Seq<char>,
    id: Seq<char>,
    message: Option<Seq<char>>,
) -> Seq<char> {
    match message {
        Some(m) => base + "/"@ + category + "/"@ + id + "/"@ + m + "/"@ + ".json"@ + "/"@,
        None => base + "/"@ + category + "/"@ + id + "/"@ + ".json"@ + "/"@,
    }
}

/// Builds the canonical address of a resource: the `/`-joined base,
/// category, id and optional message segment, closed by `.json` and a
/// trailing slash.
pub fn build_url(base_url: &str, category: &str, id: &str, message: Option<&str>) -> (r: String)
    ensures
        r@ == spec_build_url(
            base_url@,
            category@,
            id@,
            match message {
                Some(m) => Some(m@),
                None => None,
            },
        ),
{
    let mut url = String::new();
    url.append(base_url);
    url.append("/");
    url.append(category);
    url.append("/");
    url.append(id);
    url.append("/");
    match message {
        Some(m) => {
            url.append(m);
            url.append("/");
            url.append(".json");
            url.append("/");
        },
        None => {
            url.append(".json");
            url.append("/");
        },
    }
    proof {
        match message {
            Some(m) => {
                assert(url@ =~= spec_build_url(base_url@, category@, id@, Some(m@)));
            },
            None => {
                assert(url@ =~= spec_build_url(base_url@, category@, id@, None));
            },
        }
    }
    url
}

/// The payload of a pairing message: the paired device's public key and a
/// MAC tag over it, both base64url strings.
pub struct Info {
    pub public_key: String,
    pub signature: String,
}

/// The mathematical content of an [`Info`].
pub struct InfoView {
    pub public_key: Seq<char>,
    pub signature: Seq<char>,
}

impl View for Info {
    type V = InfoView;

    open spec fn view(&self) -> InfoView {
        InfoView { public_key: self.public_key@, signature: self.signature@ }
    }
}

} // verus!
