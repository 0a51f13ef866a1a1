//! Container registry webhook payload, and the reference it names.
//! Only the repository, the tag and the host are required; the other fields
//! default to empty or zero.
use vstd::prelude::*;
use crate::store::ReferenceInformation;

verus! {

/// A registry push notification.
pub struct RequestPayload {
    pub id: String,
    pub timestamp: String,
    pub action: String,
    pub target: Target,
    pub request: Request,
}

/// What was pushed. `repository` and `tag` are `None` when the payload
/// lacks them.
pub struct Target {
    pub media_type: String,
    pub size: i32,
    pub digest: String,
    pub length: i32,
    pub repository: Option<String>,
    pub tag: Option<String>,
}

/// Where the push was made. `host` is `None` when the payload lacks it.
pub struct Request {
    pub id: String,
    pub host: Option<String>,
    pub method: String,
    pub useragent: String,
}

/// The location of an image: `host/repository:tag`.
pub open spec fn image_url(host: Seq<char>, repository: Seq<char>, tag: Seq<char>) -> Seq<char> {
    host + "/"@ + repository + ":"@ + tag
}

/// The (name, url) pair that a payload names, if it holds the three
/// required fields.
pub open spec fn webhook_reference(p: RequestPayload) -> Option<(Seq<char>, Seq<char>)> {
    match (p.target.repository, p.target.tag, p.request.host) {
        (Some(r), Some(t), Some(h)) => Some((r@, image_url(h@, r@, t@))),
        _ => None,
    }
}

impl RequestPayload {
    /// The reference that the payload names: the repository, located at
    /// `host/repository:tag`. `None` when the repository, the tag or the
    /// host is missing, whatever the other fields hold.
    pub fn normalize(&self) -> (r: Option<ReferenceInformation>)
        ensures
            r is None <==> webhook_reference(*self) is None,
            r matches Some(info) ==> webhook_reference(*self) == Some((info.name@, info.url@)),
    {
        match (&self.target.repository, &self.target.tag, &self.request.host) {
            (Some(repository), Some(tag), Some(host)) => {
                let mut url = host.clone();
                url.append("/");
                url.append(repository.as_str());
                url.append(":");
                url.append(tag.as_str());
                Some(ReferenceInformation { name: repository.clone(), url })
            },
            _ => None,
        }
    }
}

} // verus!
