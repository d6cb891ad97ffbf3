//! The metadata sources. A source is a small conversation: it asks for a DMI
//! value to recognise the cloud it runs in, then for the user data from that
//! cloud's metadata service. `fetch_step` decides, from the replies received
//! so far, what to ask next or how the fetch ends; the caller performs each
//! request and hands back its reply.
use crate::codec::{base64_decode, spec_base64_decode};
use crate::http::Endpoint;
use crate::text::{concat, decode_utf8_bytes, owned, spec_trim, str_eq, trim, utf8_bytes};
use vstd::prelude::*;
use vstd::utf8::{decode_utf8, encode_utf8, valid_utf8};

pub mod alibaba;
pub mod amazon;
pub mod exoscale;
pub mod gcorelabs;
pub mod google;
pub mod openstack;
pub mod oracle;
pub mod vultr;

verus! {

/// A DMI attribute, read from `/sys/devices/virtual/dmi/id/`.
#[derive(Clone, Copy, Debug, PartialEq, Eq, Structural)]
pub enum DmiKey {
    ProductName,
    BiosVendor,
    SysVendor,
    ChassisAssetTag,
}

/// The file name of a DMI attribute.
pub open spec fn spec_dmi_name(k: DmiKey) -> Seq<char> {
    match k {
        DmiKey::ProductName => "product_name"@,
        DmiKey::BiosVendor => "bios_vendor"@,
        DmiKey::SysVendor => "sys_vendor"@,
        DmiKey::ChassisAssetTag => "chassis_asset_tag"@,
    }
}

impl DmiKey {
    /// The file name of this attribute.
    pub fn name(&self) -> (r: &'static str)
        ensures
            r@ == spec_dmi_name(*self),
    {
        match self {
            DmiKey::ProductName => "product_name",
            DmiKey::BiosVendor => "bios_vendor",
            DmiKey::SysVendor => "sys_vendor",
            DmiKey::ChassisAssetTag => "chassis_asset_tag",
        }
    }

    /// The path of the file that holds this attribute.
    pub fn path(&self) -> (r: String)
        ensures
            r@ == "/sys/devices/virtual/dmi/id/"@ + spec_dmi_name(*self),
    {
        concat(owned("/sys/devices/virtual/dmi/id/"), self.name())
    }
}

/// The clouds that user data can come from.
#[derive(Clone, Copy, Debug, PartialEq, Eq, Structural)]
pub enum SourceKind {
    Alibaba,
    Amazon,
    Exoscale,
    Gcorelabs,
    Google,
    Openstack,
    Oracle,
    Vultr,
}

/// The DMI attribute that recognises a cloud.
pub open spec fn spec_dmi_key(k: SourceKind) -> DmiKey {
    match k {
        SourceKind::Alibaba => DmiKey::ProductName,
        SourceKind::Amazon => DmiKey::BiosVendor,
        SourceKind::Exoscale => DmiKey::ProductName,
        SourceKind::Gcorelabs => DmiKey::ProductName,
        SourceKind::Google => DmiKey::ProductName,
        SourceKind::Openstack => DmiKey::SysVendor,
        SourceKind::Oracle => DmiKey::ChassisAssetTag,
        SourceKind::Vultr => DmiKey::BiosVendor,
    }
}

/// The value, once trimmed, that the DMI attribute has in a cloud.
pub open spec fn spec_expected_dmi(k: SourceKind) -> Seq<char> {
    match k {
        SourceKind::Alibaba => "Alibaba Cloud ECS"@,
        SourceKind::Amazon => "Amazon EC2"@,
        SourceKind::Exoscale => "Exoscale Compute Platform"@,
        SourceKind::Gcorelabs => "GCore Labs"@,
        SourceKind::Google => "Google Compute Engine"@,
        SourceKind::Openstack => "OpenStack Foundation"@,
        SourceKind::Oracle => "OracleCloud.com"@,
        SourceKind::Vultr => "Vultr"@,
    }
}

/// The endpoint a cloud's user data (or, for Vultr, its metadata document)
/// is fetched from over HTTP.
pub open spec fn spec_user_data_endpoint(k: SourceKind) -> Endpoint {
    match k {
        SourceKind::Alibaba => Endpoint::AlibabaUserData,
        SourceKind::Exoscale => Endpoint::ExoscaleUserData,
        SourceKind::Gcorelabs => Endpoint::GcorelabsUserData,
        SourceKind::Google => Endpoint::GoogleUserData,
        SourceKind::Openstack => Endpoint::OpenstackUserData,
        SourceKind::Oracle => Endpoint::OracleUserData,
        _ => Endpoint::VultrMetadata,
    }
}

impl SourceKind {
    /// The DMI attribute that recognises this cloud.
    pub fn dmi_key(&self) -> (r: DmiKey)
        ensures
            r == spec_dmi_key(*self),
    {
        match self {
            SourceKind::Alibaba => DmiKey::ProductName,
            SourceKind::Amazon => DmiKey::BiosVendor,
            SourceKind::Exoscale => DmiKey::ProductName,
            SourceKind::Gcorelabs => DmiKey::ProductName,
            SourceKind::Google => DmiKey::ProductName,
            SourceKind::Openstack => DmiKey::SysVendor,
            SourceKind::Oracle => DmiKey::ChassisAssetTag,
            SourceKind::Vultr => DmiKey::BiosVendor,
        }
    }

    /// The DMI value that recognises this cloud.
    pub fn expected_dmi(&self) -> (r: &'static str)
        ensures
            r@ == spec_expected_dmi(*self),
    {
        match self {
            SourceKind::Alibaba => "Alibaba Cloud ECS",
            SourceKind::Amazon => "Amazon EC2",
            SourceKind::Exoscale => "Exoscale Compute Platform",
            SourceKind::Gcorelabs => "GCore Labs",
            SourceKind::Google => "Google Compute Engine",
            SourceKind::Openstack => "OpenStack Foundation",
            SourceKind::Oracle => "OracleCloud.com",
            SourceKind::Vultr => "Vultr",
        }
    }

    fn user_data_endpoint(&self) -> (r: Endpoint)
        ensures
            r == spec_user_data_endpoint(*self),
    {
        match self {
            SourceKind::Alibaba => Endpoint::AlibabaUserData,
            SourceKind::Exoscale => Endpoint::ExoscaleUserData,
            SourceKind::Gcorelabs => Endpoint::GcorelabsUserData,
            SourceKind::Google => Endpoint::GoogleUserData,
            SourceKind::Openstack => Endpoint::OpenstackUserData,
            SourceKind::Oracle => Endpoint::OracleUserData,
            _ => Endpoint::VultrMetadata,
        }
    }
}

/// Something a source asks its caller to do. `S` is the type of text:
/// `String` in running code, `Seq<char>` in specifications.
#[derive(Debug)]
pub enum Request<S> {
    /// Read a DMI attribute; reply with `Reply::Dmi`.
    ReadDmi(DmiKey),
    /// Fetch an endpoint over HTTP; reply with `Reply::Http`.
    HttpGet(Endpoint),
    /// Fetch `/latest/user-data` from the EC2 instance metadata service;
    /// reply with `Reply::Imds`.
    ImdsUserData,
    /// Read this text as the JSON form of Google's user-data encoding, whose
    /// one value is `base64`; reply with `Reply::GoogleEncoding`.
    ParseGoogleEncoding(S),
    /// Read this text as Vultr's JSON metadata document and take its optional
    /// `user-data` string; reply with `Reply::VultrMetadata`.
    ParseVultrMetadata(S),
}

/// What the caller found when it did what a source asked.
#[derive(Debug)]
pub enum Reply<S> {
    /// The raw content of the DMI attribute, or `None` where it does not exist.
    Dmi(Option<S>),
    /// The decoded body of the response, or `None` for a 404.
    Http(Option<S>),
    /// The user data that the instance metadata service returned.
    Imds(S),
    /// `Ok` where the text read as the encoding `base64`, else the error.
    GoogleEncoding(Result<(), S>),
    /// The document's `user-data` where it read, else the error.
    VultrMetadata(Result<Option<S>, S>),
}

/// Why a fetch failed.
#[derive(Debug)]
pub enum FetchError<S> {
    /// The metadata service has no user data.
    NoUserData,
    /// A reply did not answer the request that was made.
    UnexpectedReply,
    /// A JSON document did not read; the parser's message.
    Json(S),
    /// The user data is not valid base64.
    Base64,
    /// The decoded user data is not UTF-8.
    Utf8,
}

/// What a source does next.
#[derive(Debug)]
pub enum Step<S> {
    /// Ask the caller to perform a request and reply.
    Ask(Request<S>),
    /// The fetch is over: the user data, or `None` where this source does not
    /// apply.
    Done(Option<S>),
    /// The fetch failed.
    Failed(FetchError<S>),
}

/// An optional text as specifications see it.
pub open spec fn view_opt(o: Option<String>) -> Option<Seq<char>> {
    match o {
        Some(s) => Some(s@),
        None => None,
    }
}

impl View for Request<String> {
    type V = Request<Seq<char>>;

    open spec fn view(&self) -> Request<Seq<char>> {
        match self {
            Request::ReadDmi(k) => Request::ReadDmi(*k),
            Request::HttpGet(e) => Request::HttpGet(*e),
            Request::ImdsUserData => Request::ImdsUserData,
            Request::ParseGoogleEncoding(s) => Request::ParseGoogleEncoding(s@),
            Request::ParseVultrMetadata(s) => Request::ParseVultrMetadata(s@),
        }
    }
}

impl View for Reply<String> {
    type V = Reply<Seq<char>>;

    open spec fn view(&self) -> Reply<Seq<char>> {
        match self {
            Reply::Dmi(o) => Reply::Dmi(view_opt(*o)),
            Reply::Http(o) => Reply::Http(view_opt(*o)),
            Reply::Imds(s) => Reply::Imds(s@),
            Reply::GoogleEncoding(r) => Reply::GoogleEncoding(
                match r {
                    Ok(()) => Ok(()),
                    Err(m) => Err(m@),
                },
            ),
            Reply::VultrMetadata(r) => Reply::VultrMetadata(
                match r {
                    Ok(o) => Ok(view_opt(*o)),
                    Err(m) => Err(m@),
                },
            ),
        }
    }
}

impl View for FetchError<String> {
    type V = FetchError<Seq<char>>;

    open spec fn view(&self) -> FetchError<Seq<char>> {
        match self {
            FetchError::NoUserData => FetchError::NoUserData,
            FetchError::UnexpectedReply => FetchError::UnexpectedReply,
            FetchError::Json(m) => FetchError::Json(m@),
            FetchError::Base64 => FetchError::Base64,
            FetchError::Utf8 => FetchError::Utf8,
        }
    }
}

impl View for Step<String> {
    type V = Step<Seq<char>>;

    open spec fn view(&self) -> Step<Seq<char>> {
        match self {
            Step::Ask(r) => Step::Ask(r@),
            Step::Done(o) => Step::Done(view_opt(*o)),
            Step::Failed(e) => Step::Failed(e@),
        }
    }
}

/// The replies as specifications see them.
pub open spec fn replies_view(r: Seq<Reply<String>>) -> Seq<Reply<Seq<char>>> {
    r.map_values(|x: Reply<String>| x@)
}

/// Whether a DMI value, trimmed, is the one that recognises the cloud.
pub open spec fn spec_dmi_accepts(k: SourceKind, v: Option<Seq<char>>) -> bool {
    match v {
        Some(raw) => spec_trim(raw) == spec_expected_dmi(k),
        None => false,
    }
}

/// How Google's base64-encoded user data decodes.
pub open spec fn spec_google_decode(ud: Seq<char>) -> Step<Seq<char>> {
    match spec_base64_decode(encode_utf8(ud)) {
        Some(bytes) => if valid_utf8(bytes) {
            Step::Done(Some(decode_utf8(bytes)))
        } else {
            Step::Failed(FetchError::Utf8)
        },
        None => Step::Failed(FetchError::Base64),
    }
}

/// Google's user data, which the reply at `k` answers; `b64` tells whether it
/// is base64-encoded.
pub open spec fn spec_google_user_data(r: Seq<Reply<Seq<char>>>, k: int, b64: bool) -> Step<
    Seq<char>,
> {
    if r.len() == k {
        Step::Ask(Request::HttpGet(Endpoint::GoogleUserData))
    } else {
        match r[k] {
            Reply::Http(Some(ud)) => if b64 {
                spec_google_decode(ud)
            } else {
                Step::Done(Some(ud))
            },
            Reply::Http(None) => Step::Failed(FetchError::NoUserData),
            _ => Step::Failed(FetchError::UnexpectedReply),
        }
    }
}

/// Google: the user-data encoding first (absent, or JSON naming `base64`),
/// then the user data, decoded where the encoding says so.
pub open spec fn spec_google_steps(r: Seq<Reply<Seq<char>>>) -> Step<Seq<char>> {
    if r.len() == 1 {
        Step::Ask(Request::HttpGet(Endpoint::GoogleUserDataEncoding))
    } else {
        match r[1] {
            Reply::Http(None) => spec_google_user_data(r, 2, false),
            Reply::Http(Some(b)) => if r.len() == 2 {
                Step::Ask(Request::ParseGoogleEncoding(b))
            } else {
                match r[2] {
                    Reply::GoogleEncoding(Ok(())) => spec_google_user_data(r, 3, true),
                    Reply::GoogleEncoding(Err(m)) => Step::Failed(FetchError::Json(m)),
                    _ => Step::Failed(FetchError::UnexpectedReply),
                }
            },
            _ => Step::Failed(FetchError::UnexpectedReply),
        }
    }
}

/// What a recognised cloud does after its DMI reply `r[0]`.
pub open spec fn spec_after_dmi(k: SourceKind, r: Seq<Reply<Seq<char>>>) -> Step<Seq<char>> {
    match k {
        SourceKind::Amazon => if r.len() == 1 {
            Step::Ask(Request::ImdsUserData)
        } else {
            match r[1] {
                Reply::Imds(s) => Step::Done(Some(s)),
                _ => Step::Failed(FetchError::UnexpectedReply),
            }
        },
        SourceKind::Exoscale | SourceKind::Gcorelabs => if r.len() == 1 {
            Step::Ask(Request::HttpGet(spec_user_data_endpoint(k)))
        } else {
            match r[1] {
                Reply::Http(o) => Step::Done(o),
                _ => Step::Failed(FetchError::UnexpectedReply),
            }
        },
        SourceKind::Google => spec_google_steps(r),
        SourceKind::Vultr => if r.len() == 1 {
            Step::Ask(Request::HttpGet(Endpoint::VultrMetadata))
        } else {
            match r[1] {
                Reply::Http(Some(b)) => if r.len() == 2 {
                    Step::Ask(Request::ParseVultrMetadata(b))
                } else {
                    match r[2] {
                        Reply::VultrMetadata(Ok(ud)) => Step::Done(ud),
                        Reply::VultrMetadata(Err(m)) => Step::Failed(FetchError::Json(m)),
                        _ => Step::Failed(FetchError::UnexpectedReply),
                    }
                },
                Reply::Http(None) => Step::Failed(FetchError::NoUserData),
                _ => Step::Failed(FetchError::UnexpectedReply),
            }
        },
        _ => if r.len() == 1 {
            Step::Ask(Request::HttpGet(spec_user_data_endpoint(k)))
        } else {
            match r[1] {
                Reply::Http(Some(s)) => Step::Done(Some(s)),
                Reply::Http(None) => Step::Failed(FetchError::NoUserData),
                _ => Step::Failed(FetchError::UnexpectedReply),
            }
        },
    }
}

/// What a source of kind `k` does next, given the replies `r` so far: it
/// first reads its DMI attribute, and ends with no user data unless the
/// trimmed value recognises its cloud.
pub open spec fn spec_fetch_step(k: SourceKind, r: Seq<Reply<Seq<char>>>) -> Step<Seq<char>> {
    if r.len() == 0 {
        Step::Ask(Request::ReadDmi(spec_dmi_key(k)))
    } else {
        match r[0] {
            Reply::Dmi(v) => if spec_dmi_accepts(k, v) {
                spec_after_dmi(k, r)
            } else {
                Step::Done(None)
            },
            _ => Step::Failed(FetchError::UnexpectedReply),
        }
    }
}

fn clone_opt(o: &Option<String>) -> (r: Option<String>)
    ensures
        view_opt(r) == view_opt(*o),
{
    match o {
        Some(s) => Some(s.clone()),
        None => None,
    }
}

fn dmi_accepts(k: SourceKind, v: &Option<String>) -> (r: bool)
    ensures
        r == spec_dmi_accepts(k, view_opt(*v)),
{
    match v {
        Some(raw) => {
            let t = trim(raw.as_str());
            str_eq(t.as_str(), k.expected_dmi())
        },
        None => false,
    }
}

fn google_decode(ud: &String) -> (r: Step<String>)
    ensures
        r@ == spec_google_decode(ud@),
{
    let raw = utf8_bytes(ud.as_str());
    match base64_decode(raw.as_slice()) {
        Some(bytes) => match decode_utf8_bytes(bytes) {
            Some(s) => Step::Done(Some(s)),
            None => Step::Failed(FetchError::Utf8),
        },
        None => Step::Failed(FetchError::Base64),
    }
}

fn google_user_data(replies: &Vec<Reply<String>>, k: usize, b64: bool) -> (r: Step<String>)
    requires
        k <= replies.len(),
    ensures
        r@ == spec_google_user_data(replies_view(replies@), k as int, b64),
{
    let ghost rv = replies_view(replies@);
    if replies.len() == k {
        Step::Ask(Request::HttpGet(Endpoint::GoogleUserData))
    } else {
        assert(rv[k as int] == replies@[k as int]@);
        match &replies[k] {
            Reply::Http(Some(ud)) => if b64 {
                google_decode(ud)
            } else {
                Step::Done(Some(ud.clone()))
            },
            Reply::Http(None) => Step::Failed(FetchError::NoUserData),
            _ => Step::Failed(FetchError::UnexpectedReply),
        }
    }
}

fn google_steps(replies: &Vec<Reply<String>>) -> (r: Step<String>)
    requires
        replies.len() >= 1,
    ensures
        r@ == spec_google_steps(replies_view(replies@)),
{
    let ghost rv = replies_view(replies@);
    if replies.len() == 1 {
        return Step::Ask(Request::HttpGet(Endpoint::GoogleUserDataEncoding));
    }
    assert(rv[1] == replies@[1]@);
    match &replies[1] {
        Reply::Http(None) => google_user_data(replies, 2, false),
        Reply::Http(Some(b)) => if replies.len() == 2 {
            Step::Ask(Request::ParseGoogleEncoding(b.clone()))
        } else {
            assert(rv[2] == replies@[2]@);
            match &replies[2] {
                Reply::GoogleEncoding(Ok(())) => google_user_data(replies, 3, true),
                Reply::GoogleEncoding(Err(m)) => Step::Failed(FetchError::Json(m.clone())),
                _ => Step::Failed(FetchError::UnexpectedReply),
            }
        },
        _ => Step::Failed(FetchError::UnexpectedReply),
    }
}

fn after_dmi(k: SourceKind, replies: &Vec<Reply<String>>) -> (r: Step<String>)
    requires
        replies.len() >= 1,
    ensures
        r@ == spec_after_dmi(k, replies_view(replies@)),
{
    let ghost rv = replies_view(replies@);
    match k {
        SourceKind::Amazon => if replies.len() == 1 {
            Step::Ask(Request::ImdsUserData)
        } else {
            assert(rv[1] == replies@[1]@);
            match &replies[1] {
                Reply::Imds(s) => Step::Done(Some(s.clone())),
                _ => Step::Failed(FetchError::UnexpectedReply),
            }
        },
        SourceKind::Exoscale | SourceKind::Gcorelabs => if replies.len() == 1 {
            Step::Ask(Request::HttpGet(k.user_data_endpoint()))
        } else {
            assert(rv[1] == replies@[1]@);
            match &replies[1] {
                Reply::Http(o) => Step::Done(clone_opt(o)),
                _ => Step::Failed(FetchError::UnexpectedReply),
            }
        },
        SourceKind::Google => google_steps(replies),
        SourceKind::Vultr => if replies.len() == 1 {
            Step::Ask(Request::HttpGet(Endpoint::VultrMetadata))
        } else {
            assert(rv[1] == replies@[1]@);
            match &replies[1] {
                Reply::Http(Some(b)) => if replies.len() == 2 {
                    Step::Ask(Request::ParseVultrMetadata(b.clone()))
                } else {
                    assert(rv[2] == replies@[2]@);
                    match &replies[2] {
                        Reply::VultrMetadata(Ok(ud)) => Step::Done(clone_opt(ud)),
                        Reply::VultrMetadata(Err(m)) => Step::Failed(FetchError::Json(m.clone())),
                        _ => Step::Failed(FetchError::UnexpectedReply),
                    }
                },
                Reply::Http(None) => Step::Failed(FetchError::NoUserData),
                _ => Step::Failed(FetchError::UnexpectedReply),
            }
        },
        _ => if replies.len() == 1 {
            Step::Ask(Request::HttpGet(k.user_data_endpoint()))
        } else {
            assert(rv[1] == replies@[1]@);
            match &replies[1] {
                Reply::Http(Some(s)) => Step::Done(Some(s.clone())),
                Reply::Http(None) => Step::Failed(FetchError::NoUserData),
                _ => Step::Failed(FetchError::UnexpectedReply),
            }
        },
    }
}

/// What a source of kind `k` does next, given the replies so far.
pub fn fetch_step(k: SourceKind, replies: &Vec<Reply<String>>) -> (r: Step<String>)
    ensures
        r@ == spec_fetch_step(k, replies_view(replies@)),
{
    let ghost rv = replies_view(replies@);
    if replies.len() == 0 {
        return Step::Ask(Request::ReadDmi(k.dmi_key()));
    }
    assert(rv[0] == replies@[0]@);
    match &replies[0] {
        Reply::Dmi(v) => if dmi_accepts(k, v) {
            after_dmi(k, replies)
        } else {
            Step::Done(None)
        },
        _ => Step::Failed(FetchError::UnexpectedReply),
    }
}

/// Every source starts by reading its DMI attribute: nothing goes over the
/// network before the cloud is recognised.
pub proof fn lemma_first_request_reads_dmi(k: SourceKind)
    ensures
        spec_fetch_step(k, Seq::empty()) == Step::<Seq<char>>::Ask(
            Request::ReadDmi(spec_dmi_key(k)),
        ),
{
}

/// A source whose DMI attribute is missing, or does not name its cloud once
/// trimmed, ends with no user data, whatever else it is told.
pub proof fn lemma_unrecognised_cloud_declines(k: SourceKind, r: Seq<Reply<Seq<char>>>)
    requires
        r.len() >= 1,
        r[0] matches Reply::Dmi(v) && !spec_dmi_accepts(k, v),
    ensures
        spec_fetch_step(k, r) == Step::<Seq<char>>::Done(None),
{
}

/// Once a source has finished or failed, further replies change nothing.
pub proof fn lemma_outcome_is_final(k: SourceKind, r: Seq<Reply<Seq<char>>>, x: Reply<Seq<char>>)
    requires
        !(spec_fetch_step(k, r) is Ask),
    ensures
        spec_fetch_step(k, r.push(x)) == spec_fetch_step(k, r),
{
    let r2 = r.push(x);
    assert forall|i: int| 0 <= i < r.len() implies #[trigger] r2[i] == r[i] by {}
    if r.len() >= 1 {
        assert(r2[0] == r[0]);
    }
    if r.len() >= 2 {
        assert(r2[1] == r[1]);
    }
    if r.len() >= 3 {
        assert(r2[2] == r[2]);
    }
    if r.len() >= 4 {
        assert(r2[3] == r[3]);
    }
}

/// A Google user data marked as base64 is decoded, and must decode to UTF-8.
pub proof fn lemma_google_base64_user_data(enc: Seq<char>, ud: Seq<char>, dmi: Seq<char>)
    requires
        spec_trim(dmi) == spec_expected_dmi(SourceKind::Google),
    ensures
        spec_fetch_step(
            SourceKind::Google,
            seq![
                Reply::Dmi(Some(dmi)),
                Reply::Http(Some(enc)),
                Reply::GoogleEncoding(Ok(())),
                Reply::Http(Some(ud)),
            ],
        ) == spec_google_decode(ud),
        spec_fetch_step(
            SourceKind::Google,
            seq![Reply::Dmi(Some(dmi)), Reply::Http(None), Reply::Http(Some(ud))],
        ) == Step::<Seq<char>>::Done(Some(ud)),
{
}

/// A source goes past its DMI check only for its own cloud: whenever the step
/// after a DMI value `v` is anything but "no user data", `v` trimmed is the
/// value that names this source's cloud.
pub proof fn lemma_recognises_only_its_cloud(k: SourceKind, v: Option<Seq<char>>)
    ensures
        spec_fetch_step(k, seq![Reply::Dmi(v)]) != Step::<Seq<char>>::Done(None) ==> v is Some
            && spec_trim(v->0) == (match k {
            SourceKind::Alibaba => "Alibaba Cloud ECS"@,
            SourceKind::Amazon => "Amazon EC2"@,
            SourceKind::Exoscale => "Exoscale Compute Platform"@,
            SourceKind::Gcorelabs => "GCore Labs"@,
            SourceKind::Google => "Google Compute Engine"@,
            SourceKind::Openstack => "OpenStack Foundation"@,
            SourceKind::Oracle => "OracleCloud.com"@,
            SourceKind::Vultr => "Vultr"@,
        }),
{
    let r = seq![Reply::Dmi(v)];
    assert(r[0] == Reply::Dmi(v));
}

/// A recognised cloud's source next asks for that cloud's own metadata: the
/// EC2 instance metadata service for Amazon, and otherwise an HTTP request to
/// the cloud's URL with the header its metadata server expects.
pub proof fn lemma_recognised_source_asks_its_own_url(k: SourceKind, v: Seq<char>)
    requires
        spec_trim(v) == (match k {
            SourceKind::Alibaba => "Alibaba Cloud ECS"@,
            SourceKind::Amazon => "Amazon EC2"@,
            SourceKind::Exoscale => "Exoscale Compute Platform"@,
            SourceKind::Gcorelabs => "GCore Labs"@,
            SourceKind::Google => "Google Compute Engine"@,
            SourceKind::Openstack => "OpenStack Foundation"@,
            SourceKind::Oracle => "OracleCloud.com"@,
            SourceKind::Vultr => "Vultr"@,
        }),
    ensures
        k == SourceKind::Amazon ==> spec_fetch_step(k, seq![Reply::Dmi(Some(v))]) == Step::<
            Seq<char>,
        >::Ask(Request::ImdsUserData),
        k != SourceKind::Amazon ==> (spec_fetch_step(k, seq![Reply::Dmi(Some(v))]) matches Step::Ask(
            Request::HttpGet(e),
        ) && crate::http::spec_endpoint_url(e) == (match k {
            SourceKind::Alibaba => "http://100.100.100.200/latest/user-data"@,
            SourceKind::Google =>
                "http://metadata.google.internal/computeMetadata/v1/instance/attributes/user-data-encoding"@,
            SourceKind::Oracle => "http://169.254.169.254/opc/v2/instance/metadata/user_data"@,
            SourceKind::Vultr => "http://169.254.169.254/v1.json"@,
            _ => "http://169.254.169.254/latest/user-data"@,
        }) && crate::http::spec_request_header(e) == (match k {
            SourceKind::Google => ("metadata-flavor"@, "Google"@),
            SourceKind::Oracle => ("authorization"@, "Bearer Oracle"@),
            SourceKind::Vultr => ("metadata-token"@, "cloudinit"@),
            _ => ("user-agent"@, "cloud-seed"@),
        })),
{
    let r = seq![Reply::Dmi(Some(v))];
    assert(r[0] == Reply::<Seq<char>>::Dmi(Some(v)));
    assert(r.len() == 1);
}

/// A source declines another cloud: given the DMI value that names a different
/// cloud, it ends with no user data.
pub proof fn lemma_declines_other_clouds(k: SourceKind, other: SourceKind, v: Seq<char>)
    requires
        k != other,
        spec_trim(v) == (match other {
            SourceKind::Alibaba => "Alibaba Cloud ECS"@,
            SourceKind::Amazon => "Amazon EC2"@,
            SourceKind::Exoscale => "Exoscale Compute Platform"@,
            SourceKind::Gcorelabs => "GCore Labs"@,
            SourceKind::Google => "Google Compute Engine"@,
            SourceKind::Openstack => "OpenStack Foundation"@,
            SourceKind::Oracle => "OracleCloud.com"@,
            SourceKind::Vultr => "Vultr"@,
        }),
    ensures
        spec_fetch_step(k, seq![Reply::Dmi(Some(v))]) == Step::<Seq<char>>::Done(None),
{
    reveal_strlit("Alibaba Cloud ECS");
    reveal_strlit("Amazon EC2");
    reveal_strlit("Exoscale Compute Platform");
    reveal_strlit("GCore Labs");
    reveal_strlit("Google Compute Engine");
    reveal_strlit("OpenStack Foundation");
    reveal_strlit("OracleCloud.com");
    reveal_strlit("Vultr");
    lemma_recognises_only_its_cloud(k, Some(v));
    let t = spec_trim(v);
    if spec_fetch_step(k, seq![Reply::Dmi(Some(v))]) != Step::<Seq<char>>::Done(None) {
        assert(t == spec_expected_dmi(k));
        assert(t[0] == spec_expected_dmi(k)[0]);
        assert(false);
    }
}

/// A metadata source: which cloud it serves, and the conversation that
/// fetches that cloud's user data.
pub trait Source {
    /// The cloud this source serves.
    spec fn spec_kind(&self) -> SourceKind;

    /// The cloud this source serves.
    fn kind(&self) -> (k: SourceKind)
        ensures
            k == self.spec_kind(),
    ;

    /// What this source does next, given the replies to its requests so far.
    fn next_step(&self, replies: &Vec<Reply<String>>) -> (r: Step<String>)
        ensures
            r@ == spec_fetch_step(self.spec_kind(), replies_view(replies@)),
    {
        fetch_step(self.kind(), replies)
    }
}

} // verus!
