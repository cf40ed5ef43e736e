use vstd::prelude::*;

use crate::lsn::Lsn;
use crate::reltag::{RelTag, SlruKind};
use crate::wire::{
    be_i64, be_u32, be_u64, buf_limit, buf_seq, bytes_as_slice, bytes_seq, freeze, lemma_u32_at,
    lemma_u64_at, put_i64, put_slice, put_u32, put_u64, put_u8, read_be_u32, read_be_u64, u32_at,
    u64_at, MAX_MESSAGE_LEN,
};
use vstd::utf8::encode_utf8;

verus! {

/// A state of a tenant in the page server's memory.
#[derive(Debug, Clone, Copy, PartialEq, Eq, Structural)]
pub enum TenantState {
    /// The tenant is being loaded from local disk.
    Loading,
    /// The tenant is being downloaded from cloud storage.
    Attaching,
    /// The tenant is fully operational.
    Active,
    /// The tenant is recognized, but it is being detached or the system is
    /// shutting down.
    Stopping,
    /// The tenant is recognized, but can no longer be used for any operation,
    /// because it failed to be activated.
    Broken,
}

impl TenantState {
    /// The states in which data is still being brought in.
    pub open spec fn downloading(self) -> bool {
        self is Loading || self is Attaching
    }

    pub fn has_in_progress_downloads(&self) -> (r: bool)
        ensures
            r == self.downloading(),
    {
        match self {
            TenantState::Loading => true,
            TenantState::Attaching => true,
            TenantState::Active => false,
            TenantState::Stopping => false,
            TenantState::Broken => false,
        }
    }
}

/// A state of a timeline in the page server's memory.
#[derive(Debug, Clone, Copy, PartialEq, Eq, Structural)]
pub enum TimelineState {
    /// The timeline is fully operational. Its background jobs run while the
    /// tenant is active, and are launched when the tenant is activated.
    Active,
    /// The timeline is recognized, but not yet ready to operate; it may go
    /// back to Active by itself, e.g. when its tenant becomes active again.
    Suspended,
    /// The timeline is recognized, but not ready to operate, and only a
    /// management call can make it active again.
    Stopping,
    /// The timeline is recognized, but can no longer be used for any
    /// operation, because it failed to be activated.
    Broken,
}

impl TimelineState {
    /// The one state in which a timeline serves pages.
    pub open spec fn serving(self) -> bool {
        self is Active
    }

    pub fn is_serving(&self) -> (r: bool)
        ensures
            r == self.serving(),
    {
        match self {
            TimelineState::Active => true,
            _ => false,
        }
    }
}

/// Why a well-formed request cannot be served at present.
#[derive(Debug, Clone, Copy, PartialEq, Eq, Structural)]
pub enum RequestRejection {
    /// The tenant is still being loaded or attached.
    TenantNotReady(TenantState),
    /// The timeline is suspended, stopping or broken.
    TimelineNotReady(TimelineState),
}

/// What a page request meets, given
/// the states of its tenant and its timeline.
pub open spec fn admission(tenant: TenantState, timeline: TimelineState) -> Result<(), RequestRejection> {
    if tenant.downloading() {
        Err(RequestRejection::TenantNotReady(tenant))
    } else if !timeline.serving() {
        Err(RequestRejection::TimelineNotReady(timeline))
    } else {
        Ok(())
    }
}

/// Decides whether a request against a tenant and timeline in the given
/// states may be served; the tenant is consulted first.
pub fn check_request_servable(tenant: TenantState, timeline: TimelineState) -> (r: Result<
    (),
    RequestRejection,
>)
    ensures
        r == admission(tenant, timeline),
{
    if tenant.has_in_progress_downloads() {
        Err(RequestRejection::TenantNotReady(tenant))
    } else if !timeline.is_serving() {
        Err(RequestRejection::TimelineNotReady(timeline))
    } else {
        Ok(())
    }
}

/// Configuration of a single fail point.
#[derive(Debug, PartialEq, Eq)]
pub struct FailpointConfig {
    /// Name of the fail point.
    pub name: String,
    /// Actions to take, in the format of the fail point library; `exit` makes
    /// the process exit at once.
    pub actions: String,
}

#[derive(Debug, Clone, Copy, PartialEq, Eq, Structural)]
pub struct TimelineGcRequest {
    pub gc_horizon: Option<u64>,
}

// ---------------------------------------------------------------------------
// Page stream messages
// ---------------------------------------------------------------------------

/// A request from a compute node.
#[derive(Debug, Clone, Copy, PartialEq, Eq, Structural)]
pub enum PagestreamFeMessage {
    Exists(PagestreamExistsRequest),
    Nblocks(PagestreamNblocksRequest),
    GetPage(PagestreamGetPageRequest),
    DbSize(PagestreamDbSizeRequest),
    GetSlruPage(PagestreamGetSlruPageRequest),
}

/// A response to a compute node.
pub enum PagestreamBeMessage {
    Exists(PagestreamExistsResponse),
    Nblocks(PagestreamNblocksResponse),
    GetPage(PagestreamGetPageResponse),
    GetSlruPage(PagestreamGetSlruPageResponse),
    Error(PagestreamErrorResponse),
    DbSize(PagestreamDbSizeResponse),
}

/// With `latest` set the newest version is asked for and `lsn` is only a
/// hint; otherwise the version as of `lsn` exactly.
#[derive(Debug, Clone, Copy, PartialEq, Eq, Structural)]
pub struct PagestreamExistsRequest {
    pub latest: bool,
    pub lsn: Lsn,
    pub region: u32,
    pub rel: RelTag,
}

#[derive(Debug, Clone, Copy, PartialEq, Eq, Structural)]
pub struct PagestreamNblocksRequest {
    pub latest: bool,
    pub lsn: Lsn,
    pub region: u32,
    pub rel: RelTag,
}

#[derive(Debug, Clone, Copy, PartialEq, Eq, Structural)]
pub struct PagestreamGetPageRequest {
    pub latest: bool,
    pub lsn: Lsn,
    pub region: u32,
    pub rel: RelTag,
    pub blkno: u32,
}

#[derive(Debug, Clone, Copy, PartialEq, Eq, Structural)]
pub struct PagestreamDbSizeRequest {
    pub latest: bool,
    pub lsn: Lsn,
    pub dbnode: u32,
}

#[derive(Debug, Clone, Copy, PartialEq, Eq, Structural)]
pub struct PagestreamGetSlruPageRequest {
    pub latest: bool,
    pub lsn: Lsn,
    pub region: u32,
    pub kind: SlruKind,
    pub segno: u32,
    pub blkno: u32,
    pub check_exists_only: bool,
}

#[derive(Debug)]
pub struct PagestreamExistsResponse {
    pub lsn: Lsn,
    pub exists: bool,
}

#[derive(Debug)]
pub struct PagestreamNblocksResponse {
    pub lsn: Lsn,
    pub n_blocks: u32,
}

#[derive(Debug)]
pub struct PagestreamGetPageResponse {
    pub lsn: Lsn,
    pub page: bytes::Bytes,
}

#[derive(Debug)]
pub struct PagestreamGetSlruPageResponse {
    pub lsn: Lsn,
    pub seg_exists: bool,
    pub page: Option<bytes::Bytes>,
}

#[derive(Debug)]
pub struct PagestreamErrorResponse {
    pub message: String,
}

#[derive(Debug)]
pub struct PagestreamDbSizeResponse {
    pub lsn: Lsn,
    pub db_size: i64,
}

/// Why a byte sequence is not a request.
#[derive(Debug, Clone, Copy, PartialEq, Eq, Structural)]
pub enum ProtocolError {
    /// The input ends before the last field of the message.
    Truncated,
    /// The leading byte is not the tag of any request.
    UnknownTag(u8),
    /// The SLRU kind byte stands for no kind.
    InvalidSlruKind(u8),
}

/// Wire tags of the requests.
pub const TAG_EXISTS: u8 = 0;
pub const TAG_NBLOCKS: u8 = 1;
pub const TAG_GET_PAGE: u8 = 2;
pub const TAG_DB_SIZE: u8 = 3;
pub const TAG_GET_SLRU_PAGE: u8 = 4;

/// Wire tags of the responses.
pub const TAG_EXISTS_RESPONSE: u8 = 100;
pub const TAG_NBLOCKS_RESPONSE: u8 = 101;
pub const TAG_GET_PAGE_RESPONSE: u8 = 102;
pub const TAG_GET_SLRU_PAGE_RESPONSE: u8 = 103;
pub const TAG_ERROR_RESPONSE: u8 = 104;
pub const TAG_DB_SIZE_RESPONSE: u8 = 105;

/// Encoded lengths of the requests, tag included.
pub const LEN_EXISTS: usize = 27;
pub const LEN_NBLOCKS: usize = 27;
pub const LEN_GET_PAGE: usize = 31;
pub const LEN_DB_SIZE: usize = 14;
pub const LEN_GET_SLRU_PAGE: usize = 24;

pub open spec fn bool_byte(b: bool) -> u8 {
    if b {
        1
    } else {
        0
    }
}

/// Layout of a relation tag: tablespace, database, relation, fork.
pub open spec fn rel_bytes(rel: RelTag) -> Seq<u8> {
    be_u32(rel.spcnode) + be_u32(rel.dbnode) + be_u32(rel.relnode) + seq![rel.forknum]
}

/// The relation tag whose layout starts at `pos`.
pub open spec fn rel_at(s: Seq<u8>, pos: int) -> RelTag {
    RelTag {
        spcnode: u32_at(s, pos),
        dbnode: u32_at(s, pos + 4),
        relnode: u32_at(s, pos + 8),
        forknum: s[pos + 12],
    }
}

/// The encoded length that a request tag calls for.
pub open spec fn request_len(tag: u8) -> nat {
    if tag == TAG_EXISTS {
        LEN_EXISTS as nat
    } else if tag == TAG_NBLOCKS {
        LEN_NBLOCKS as nat
    } else if tag == TAG_GET_PAGE {
        LEN_GET_PAGE as nat
    } else if tag == TAG_DB_SIZE {
        LEN_DB_SIZE as nat
    } else {
        LEN_GET_SLRU_PAGE as nat
    }
}

pub open spec fn is_request_tag(tag: u8) -> bool {
    tag <= TAG_GET_SLRU_PAGE
}

impl PagestreamFeMessage {
    /// The wire tag of the request.
    pub open spec fn tag(self) -> u8 {
        match self {
            PagestreamFeMessage::Exists(_) => TAG_EXISTS,
            PagestreamFeMessage::Nblocks(_) => TAG_NBLOCKS,
            PagestreamFeMessage::GetPage(_) => TAG_GET_PAGE,
            PagestreamFeMessage::DbSize(_) => TAG_DB_SIZE,
            PagestreamFeMessage::GetSlruPage(_) => TAG_GET_SLRU_PAGE,
        }
    }

    /// The bytes of a request: its tag, then its fields, integers big-endian
    /// and flags as one byte each.
    pub open spec fn encoding(self) -> Seq<u8> {
        match self {
            PagestreamFeMessage::Exists(r) => seq![TAG_EXISTS, bool_byte(r.latest)] + be_u64(
                r.lsn.0,
            ) + rel_bytes(r.rel) + be_u32(r.region),
            PagestreamFeMessage::Nblocks(r) => seq![TAG_NBLOCKS, bool_byte(r.latest)] + be_u64(
                r.lsn.0,
            ) + rel_bytes(r.rel) + be_u32(r.region),
            PagestreamFeMessage::GetPage(r) => seq![TAG_GET_PAGE, bool_byte(r.latest)] + be_u64(
                r.lsn.0,
            ) + rel_bytes(r.rel) + be_u32(r.blkno) + be_u32(r.region),
            PagestreamFeMessage::DbSize(r) => seq![TAG_DB_SIZE, bool_byte(r.latest)] + be_u64(
                r.lsn.0,
            ) + be_u32(r.dbnode),
            PagestreamFeMessage::GetSlruPage(r) => seq![TAG_GET_SLRU_PAGE, bool_byte(r.latest)]
                + be_u64(r.lsn.0) + seq![r.kind.code()] + be_u32(r.segno) + be_u32(r.blkno)
                + seq![bool_byte(r.check_exists_only)] + be_u32(r.region),
        }
    }

    /// What the bytes `s` are read as: the fields are taken in the order in
    /// which `encoding` lays them out, and bytes past the last field are left
    /// unread. Reading fails where the input ends early, on an unknown tag, and
    /// on an SLRU kind byte that stands for no kind, whichever comes first.
    pub open spec fn decoding(s: Seq<u8>) -> Result<PagestreamFeMessage, ProtocolError> {
        if s.len() < 1 {
            Err(ProtocolError::Truncated)
        } else if !is_request_tag(s[0]) {
            Err(ProtocolError::UnknownTag(s[0]))
        } else if s[0] == TAG_GET_SLRU_PAGE && s.len() > 10 && SlruKind::of_code(s[10]) is None {
            Err(ProtocolError::InvalidSlruKind(s[10]))
        } else if s.len() < request_len(s[0]) {
            Err(ProtocolError::Truncated)
        } else if s[0] == TAG_EXISTS {
            Ok(
                PagestreamFeMessage::Exists(
                    PagestreamExistsRequest {
                        latest: s[1] != 0,
                        lsn: Lsn(u64_at(s, 2)),
                        rel: rel_at(s, 10),
                        region: u32_at(s, 23),
                    },
                ),
            )
        } else if s[0] == TAG_NBLOCKS {
            Ok(
                PagestreamFeMessage::Nblocks(
                    PagestreamNblocksRequest {
                        latest: s[1] != 0,
                        lsn: Lsn(u64_at(s, 2)),
                        rel: rel_at(s, 10),
                        region: u32_at(s, 23),
                    },
                ),
            )
        } else if s[0] == TAG_GET_PAGE {
            Ok(
                PagestreamFeMessage::GetPage(
                    PagestreamGetPageRequest {
                        latest: s[1] != 0,
                        lsn: Lsn(u64_at(s, 2)),
                        rel: rel_at(s, 10),
                        blkno: u32_at(s, 23),
                        region: u32_at(s, 27),
                    },
                ),
            )
        } else if s[0] == TAG_DB_SIZE {
            Ok(
                PagestreamFeMessage::DbSize(
                    PagestreamDbSizeRequest {
                        latest: s[1] != 0,
                        lsn: Lsn(u64_at(s, 2)),
                        dbnode: u32_at(s, 10),
                    },
                ),
            )
        } else {
            Ok(
                PagestreamFeMessage::GetSlruPage(
                    PagestreamGetSlruPageRequest {
                        latest: s[1] != 0,
                        lsn: Lsn(u64_at(s, 2)),
                        kind: SlruKind::of_code(s[10]).unwrap(),
                        segno: u32_at(s, 11),
                        blkno: u32_at(s, 15),
                        check_exists_only: s[19] != 0,
                        region: u32_at(s, 20),
                    },
                ),
            )
        }
    }
}

fn put_bool(b: &mut bytes::BytesMut, v: bool)
    requires
        buf_seq(*old(b)).len() + 1 <= buf_limit(),
    ensures
        buf_seq(*final(b)) == buf_seq(*old(b)).push(bool_byte(v)),
{
    put_u8(b, if v { 1 } else { 0 });
}

fn put_rel(b: &mut bytes::BytesMut, rel: &RelTag)
    requires
        buf_seq(*old(b)).len() + 13 <= buf_limit(),
    ensures
        buf_seq(*final(b)) == buf_seq(*old(b)) + rel_bytes(*rel),
{
    put_u32(b, rel.spcnode);
    put_u32(b, rel.dbnode);
    put_u32(b, rel.relnode);
    put_u8(b, rel.forknum);
    assert(buf_seq(*b) =~= buf_seq(*old(b)) + rel_bytes(*rel));
}

fn read_rel(s: &[u8], pos: usize) -> (r: RelTag)
    requires
        pos + 13 <= s@.len(),
    ensures
        r == rel_at(s@, pos as int),
{
    let _ = s.len();
    RelTag {
        spcnode: read_be_u32(s, pos),
        dbnode: read_be_u32(s, pos + 4),
        relnode: read_be_u32(s, pos + 8),
        forknum: s[pos + 12],
    }
}

impl PagestreamFeMessage {
    /// Encodes the request.
    pub fn serialize(&self) -> (r: bytes::Bytes)
        ensures
            bytes_seq(r) == self.encoding(),
    {
        let mut b = crate::wire::buf_new();
        match self {
            PagestreamFeMessage::Exists(req) => {
                put_u8(&mut b, TAG_EXISTS);
                put_bool(&mut b, req.latest);
                put_u64(&mut b, req.lsn.0);
                put_rel(&mut b, &req.rel);
                put_u32(&mut b, req.region);
            },
            PagestreamFeMessage::Nblocks(req) => {
                put_u8(&mut b, TAG_NBLOCKS);
                put_bool(&mut b, req.latest);
                put_u64(&mut b, req.lsn.0);
                put_rel(&mut b, &req.rel);
                put_u32(&mut b, req.region);
            },
            PagestreamFeMessage::GetPage(req) => {
                put_u8(&mut b, TAG_GET_PAGE);
                put_bool(&mut b, req.latest);
                put_u64(&mut b, req.lsn.0);
                put_rel(&mut b, &req.rel);
                put_u32(&mut b, req.blkno);
                put_u32(&mut b, req.region);
            },
            PagestreamFeMessage::DbSize(req) => {
                put_u8(&mut b, TAG_DB_SIZE);
                put_bool(&mut b, req.latest);
                put_u64(&mut b, req.lsn.0);
                put_u32(&mut b, req.dbnode);
            },
            PagestreamFeMessage::GetSlruPage(req) => {
                put_u8(&mut b, TAG_GET_SLRU_PAGE);
                put_bool(&mut b, req.latest);
                put_u64(&mut b, req.lsn.0);
                put_u8(&mut b, req.kind.to_u8());
                put_u32(&mut b, req.segno);
                put_u32(&mut b, req.blkno);
                put_bool(&mut b, req.check_exists_only);
                put_u32(&mut b, req.region);
            },
        }
        assert(buf_seq(b) =~= self.encoding());
        freeze(b)
    }

    /// Decodes a request from the front of `body`.
    pub fn parse(body: &[u8]) -> (r: Result<PagestreamFeMessage, ProtocolError>)
        ensures
            r == PagestreamFeMessage::decoding(body@),
    {
        let len = body.len();
        if len < 1 {
            return Err(ProtocolError::Truncated);
        }
        let tag = body[0];
        if tag > TAG_GET_SLRU_PAGE {
            return Err(ProtocolError::UnknownTag(tag));
        }
        let kind = if tag == TAG_GET_SLRU_PAGE && len > 10 {
            match SlruKind::from_u8(body[10]) {
                Some(k) => Some(k),
                None => {
                    return Err(ProtocolError::InvalidSlruKind(body[10]));
                },
            }
        } else {
            None
        };
        let need = if tag == TAG_EXISTS {
            LEN_EXISTS
        } else if tag == TAG_NBLOCKS {
            LEN_NBLOCKS
        } else if tag == TAG_GET_PAGE {
            LEN_GET_PAGE
        } else if tag == TAG_DB_SIZE {
            LEN_DB_SIZE
        } else {
            LEN_GET_SLRU_PAGE
        };
        if len < need {
            return Err(ProtocolError::Truncated);
        }
        let latest = body[1] != 0;
        let lsn = Lsn(read_be_u64(body, 2));
        if tag == TAG_EXISTS {
            Ok(
                PagestreamFeMessage::Exists(
                    PagestreamExistsRequest {
                        latest,
                        lsn,
                        rel: read_rel(body, 10),
                        region: read_be_u32(body, 23),
                    },
                ),
            )
        } else if tag == TAG_NBLOCKS {
            Ok(
                PagestreamFeMessage::Nblocks(
                    PagestreamNblocksRequest {
                        latest,
                        lsn,
                        rel: read_rel(body, 10),
                        region: read_be_u32(body, 23),
                    },
                ),
            )
        } else if tag == TAG_GET_PAGE {
            Ok(
                PagestreamFeMessage::GetPage(
                    PagestreamGetPageRequest {
                        latest,
                        lsn,
                        rel: read_rel(body, 10),
                        blkno: read_be_u32(body, 23),
                        region: read_be_u32(body, 27),
                    },
                ),
            )
        } else if tag == TAG_DB_SIZE {
            Ok(
                PagestreamFeMessage::DbSize(
                    PagestreamDbSizeRequest { latest, lsn, dbnode: read_be_u32(body, 10) },
                ),
            )
        } else {
            let kind = kind.unwrap();
            Ok(
                PagestreamFeMessage::GetSlruPage(
                    PagestreamGetSlruPageRequest {
                        latest,
                        lsn,
                        kind,
                        segno: read_be_u32(body, 11),
                        blkno: read_be_u32(body, 15),
                        check_exists_only: body[19] != 0,
                        region: read_be_u32(body, 20),
                    },
                ),
            )
        }
    }
}

impl PagestreamBeMessage {
    /// The wire tag of the response.
    pub open spec fn tag(&self) -> u8 {
        match self {
            PagestreamBeMessage::Exists(_) => TAG_EXISTS_RESPONSE,
            PagestreamBeMessage::Nblocks(_) => TAG_NBLOCKS_RESPONSE,
            PagestreamBeMessage::GetPage(_) => TAG_GET_PAGE_RESPONSE,
            PagestreamBeMessage::GetSlruPage(_) => TAG_GET_SLRU_PAGE_RESPONSE,
            PagestreamBeMessage::Error(_) => TAG_ERROR_RESPONSE,
            PagestreamBeMessage::DbSize(_) => TAG_DB_SIZE_RESPONSE,
        }
    }

    /// The bytes of a response: its tag, then its fields. A page goes out
    /// whole, with no length; an SLRU page is preceded by a presence flag; an
    /// error message goes out as UTF-8 followed by a zero byte.
    pub open spec fn encoding(&self) -> Seq<u8> {
        match self {
            PagestreamBeMessage::Exists(r) => seq![TAG_EXISTS_RESPONSE] + be_u64(r.lsn.0) + seq![
                bool_byte(r.exists),
            ],
            PagestreamBeMessage::Nblocks(r) => seq![TAG_NBLOCKS_RESPONSE] + be_u64(r.lsn.0)
                + be_u32(r.n_blocks),
            PagestreamBeMessage::GetPage(r) => seq![TAG_GET_PAGE_RESPONSE] + be_u64(r.lsn.0)
                + bytes_seq(r.page),
            PagestreamBeMessage::GetSlruPage(r) => seq![TAG_GET_SLRU_PAGE_RESPONSE] + be_u64(
                r.lsn.0,
            ) + seq![bool_byte(r.seg_exists)] + match r.page {
                Some(p) => seq![1u8] + bytes_seq(p),
                None => seq![0u8],
            },
            PagestreamBeMessage::Error(r) => seq![TAG_ERROR_RESPONSE] + encode_utf8(r.message@)
                + seq![0u8],
            PagestreamBeMessage::DbSize(r) => seq![TAG_DB_SIZE_RESPONSE] + be_u64(r.lsn.0)
                + be_i64(r.db_size),
        }
    }

    /// Encodes the response.
    pub fn serialize(&self) -> (r: bytes::Bytes)
        requires
            self.encoding().len() <= buf_limit(),
        ensures
            bytes_seq(r) == self.encoding(),
    {
        let mut b = crate::wire::buf_new();
        match self {
            PagestreamBeMessage::Exists(resp) => {
                put_u8(&mut b, TAG_EXISTS_RESPONSE);
                put_u64(&mut b, resp.lsn.0);
                put_bool(&mut b, resp.exists);
            },
            PagestreamBeMessage::Nblocks(resp) => {
                put_u8(&mut b, TAG_NBLOCKS_RESPONSE);
                put_u64(&mut b, resp.lsn.0);
                put_u32(&mut b, resp.n_blocks);
            },
            PagestreamBeMessage::GetPage(resp) => {
                put_u8(&mut b, TAG_GET_PAGE_RESPONSE);
                put_u64(&mut b, resp.lsn.0);
                put_slice(&mut b, bytes_as_slice(&resp.page));
            },
            PagestreamBeMessage::GetSlruPage(resp) => {
                put_u8(&mut b, TAG_GET_SLRU_PAGE_RESPONSE);
                put_u64(&mut b, resp.lsn.0);
                put_bool(&mut b, resp.seg_exists);
                match &resp.page {
                    Some(page) => {
                        put_u8(&mut b, 1);
                        put_slice(&mut b, bytes_as_slice(page));
                    },
                    None => {
                        put_u8(&mut b, 0);
                    },
                }
            },
            PagestreamBeMessage::Error(resp) => {
                put_u8(&mut b, TAG_ERROR_RESPONSE);
                put_slice(&mut b, resp.message.as_str().as_bytes());
                put_u8(&mut b, 0);
            },
            PagestreamBeMessage::DbSize(resp) => {
                put_u8(&mut b, TAG_DB_SIZE_RESPONSE);
                put_u64(&mut b, resp.lsn.0);
                put_i64(&mut b, resp.db_size);
            },
        }
        assert(buf_seq(b) =~= self.encoding());
        freeze(b)
    }

    /// Encodes the response where its encoding fits in `MAX_MESSAGE_LEN`
    /// bytes; gives `None` where it does not.
    pub fn try_serialize(&self) -> (r: Option<bytes::Bytes>)
        ensures
            self.encoding().len() <= buf_limit() ==> (r matches Some(b) && bytes_seq(b)
                == self.encoding()),
            self.encoding().len() > buf_limit() ==> r is None,
    {
        let payload: usize = match self {
            PagestreamBeMessage::GetPage(resp) => bytes_as_slice(&resp.page).len(),
            PagestreamBeMessage::GetSlruPage(resp) => match &resp.page {
                Some(page) => bytes_as_slice(page).len(),
                None => 0,
            },
            PagestreamBeMessage::Error(resp) => resp.message.as_str().as_bytes().len(),
            _ => 0,
        };
        let fixed: usize = match self {
            PagestreamBeMessage::Exists(_) => 10,
            PagestreamBeMessage::Nblocks(_) => 13,
            PagestreamBeMessage::GetPage(_) => 9,
            PagestreamBeMessage::GetSlruPage(_) => 11,
            PagestreamBeMessage::Error(_) => 2,
            PagestreamBeMessage::DbSize(_) => 17,
        };
        assert(self.encoding().len() == payload + fixed);
        if payload > MAX_MESSAGE_LEN || payload + fixed > MAX_MESSAGE_LEN {
            return None;
        }
        Some(self.serialize())
    }
}

/// Every encoded response starts with the fixed tag of its variant.
pub proof fn lemma_response_tag(m: PagestreamBeMessage)
    ensures
        m.encoding()[0] == m.tag(),
        m.tag() == match m {
            PagestreamBeMessage::Exists(_) => 100u8,
            PagestreamBeMessage::Nblocks(_) => 101u8,
            PagestreamBeMessage::GetPage(_) => 102u8,
            PagestreamBeMessage::GetSlruPage(_) => 103u8,
            PagestreamBeMessage::Error(_) => 104u8,
            PagestreamBeMessage::DbSize(_) => 105u8,
        },
{
}

/// Reading back a relation tag where its layout stands gives it.
proof fn lemma_rel_at(s: Seq<u8>, pos: int, rel: RelTag)
    requires
        0 <= pos,
        pos + 13 <= s.len(),
        s.subrange(pos, pos + 13) == rel_bytes(rel),
    ensures
        rel_at(s, pos) == rel,
{
    let r = rel_bytes(rel);
    assert(s.subrange(pos, pos + 4) =~= r.subrange(0, 4));
    assert(s.subrange(pos + 4, pos + 8) =~= r.subrange(4, 8));
    assert(s.subrange(pos + 8, pos + 12) =~= r.subrange(8, 12));
    assert(r.subrange(0, 4) =~= be_u32(rel.spcnode));
    assert(r.subrange(4, 8) =~= be_u32(rel.dbnode));
    assert(r.subrange(8, 12) =~= be_u32(rel.relnode));
    assert(s[pos + 12] == r[12]);
    lemma_u32_at(s, pos, rel.spcnode);
    lemma_u32_at(s, pos + 4, rel.dbnode);
    lemma_u32_at(s, pos + 8, rel.relnode);
}

proof fn lemma_round_trip_exists(r: PagestreamExistsRequest, rest: Seq<u8>)
    ensures
        PagestreamFeMessage::Exists(r).encoding().len() == request_len(TAG_EXISTS),
        PagestreamFeMessage::decoding(PagestreamFeMessage::Exists(r).encoding() + rest) == Ok::<
            PagestreamFeMessage,
            ProtocolError,
        >(PagestreamFeMessage::Exists(r)),
{
    let e = PagestreamFeMessage::Exists(r).encoding();
    let s = e + rest;
    assert(s.subrange(2, 10) =~= be_u64(r.lsn.0));
    assert(s.subrange(10, 23) =~= rel_bytes(r.rel));
    assert(s.subrange(23, 27) =~= be_u32(r.region));
    lemma_u64_at(s, 2, r.lsn.0);
    lemma_rel_at(s, 10, r.rel);
    lemma_u32_at(s, 23, r.region);
    assert(s[0] == e[0] && s[1] == e[1]);
}

proof fn lemma_round_trip_nblocks(r: PagestreamNblocksRequest, rest: Seq<u8>)
    ensures
        PagestreamFeMessage::Nblocks(r).encoding().len() == request_len(TAG_NBLOCKS),
        PagestreamFeMessage::decoding(PagestreamFeMessage::Nblocks(r).encoding() + rest) == Ok::<
            PagestreamFeMessage,
            ProtocolError,
        >(PagestreamFeMessage::Nblocks(r)),
{
    let e = PagestreamFeMessage::Nblocks(r).encoding();
    let s = e + rest;
    assert(s.subrange(2, 10) =~= be_u64(r.lsn.0));
    assert(s.subrange(10, 23) =~= rel_bytes(r.rel));
    assert(s.subrange(23, 27) =~= be_u32(r.region));
    lemma_u64_at(s, 2, r.lsn.0);
    lemma_rel_at(s, 10, r.rel);
    lemma_u32_at(s, 23, r.region);
    assert(s[0] == e[0] && s[1] == e[1]);
}

proof fn lemma_round_trip_get_page(r: PagestreamGetPageRequest, rest: Seq<u8>)
    ensures
        PagestreamFeMessage::GetPage(r).encoding().len() == request_len(TAG_GET_PAGE),
        PagestreamFeMessage::decoding(PagestreamFeMessage::GetPage(r).encoding() + rest) == Ok::<
            PagestreamFeMessage,
            ProtocolError,
        >(PagestreamFeMessage::GetPage(r)),
{
    let e = PagestreamFeMessage::GetPage(r).encoding();
    let s = e + rest;
    assert(s.subrange(2, 10) =~= be_u64(r.lsn.0));
    assert(s.subrange(10, 23) =~= rel_bytes(r.rel));
    assert(s.subrange(23, 27) =~= be_u32(r.blkno));
    assert(s.subrange(27, 31) =~= be_u32(r.region));
    lemma_u64_at(s, 2, r.lsn.0);
    lemma_rel_at(s, 10, r.rel);
    lemma_u32_at(s, 23, r.blkno);
    lemma_u32_at(s, 27, r.region);
    assert(s[0] == e[0] && s[1] == e[1]);
}

proof fn lemma_round_trip_db_size(r: PagestreamDbSizeRequest, rest: Seq<u8>)
    ensures
        PagestreamFeMessage::DbSize(r).encoding().len() == request_len(TAG_DB_SIZE),
        PagestreamFeMessage::decoding(PagestreamFeMessage::DbSize(r).encoding() + rest) == Ok::<
            PagestreamFeMessage,
            ProtocolError,
        >(PagestreamFeMessage::DbSize(r)),
{
    let e = PagestreamFeMessage::DbSize(r).encoding();
    let s = e + rest;
    assert(s.subrange(2, 10) =~= be_u64(r.lsn.0));
    assert(s.subrange(10, 14) =~= be_u32(r.dbnode));
    lemma_u64_at(s, 2, r.lsn.0);
    lemma_u32_at(s, 10, r.dbnode);
    assert(s[0] == e[0] && s[1] == e[1]);
}

proof fn lemma_round_trip_get_slru_page(r: PagestreamGetSlruPageRequest, rest: Seq<u8>)
    ensures
        PagestreamFeMessage::GetSlruPage(r).encoding().len() == request_len(TAG_GET_SLRU_PAGE),
        PagestreamFeMessage::decoding(PagestreamFeMessage::GetSlruPage(r).encoding() + rest) == Ok::<
            PagestreamFeMessage,
            ProtocolError,
        >(PagestreamFeMessage::GetSlruPage(r)),
{
    let e = PagestreamFeMessage::GetSlruPage(r).encoding();
    let s = e + rest;
    assert(s.subrange(2, 10) =~= be_u64(r.lsn.0));
    assert(s.subrange(11, 15) =~= be_u32(r.segno));
    assert(s.subrange(15, 19) =~= be_u32(r.blkno));
    assert(s.subrange(20, 24) =~= be_u32(r.region));
    lemma_u64_at(s, 2, r.lsn.0);
    lemma_u32_at(s, 11, r.segno);
    lemma_u32_at(s, 15, r.blkno);
    lemma_u32_at(s, 20, r.region);
    r.kind.lemma_code_round_trip();
    assert(s[10] == r.kind.code());
    assert(s[19] == bool_byte(r.check_exists_only));
    assert(s[0] == e[0] && s[1] == e[1]);
}

/// Every request is read back, field for field, from its own encoding,
/// whatever bytes follow it; the encoding is as long as its tag calls for.
pub proof fn lemma_round_trip(m: PagestreamFeMessage, rest: Seq<u8>)
    ensures
        m.encoding().len() == request_len(m.tag()),
        PagestreamFeMessage::decoding(m.encoding() + rest) == Ok::<
            PagestreamFeMessage,
            ProtocolError,
        >(m),
        PagestreamFeMessage::decoding(m.encoding()) == Ok::<PagestreamFeMessage, ProtocolError>(m),
{
    assert(m.encoding() + Seq::<u8>::empty() =~= m.encoding());
    match m {
        PagestreamFeMessage::Exists(r) => lemma_round_trip_exists(r, Seq::empty()),
        PagestreamFeMessage::Nblocks(r) => lemma_round_trip_nblocks(r, Seq::empty()),
        PagestreamFeMessage::GetPage(r) => lemma_round_trip_get_page(r, Seq::empty()),
        PagestreamFeMessage::DbSize(r) => lemma_round_trip_db_size(r, Seq::empty()),
        PagestreamFeMessage::GetSlruPage(r) => lemma_round_trip_get_slru_page(r, Seq::empty()),
    }
    match m {
        PagestreamFeMessage::Exists(r) => lemma_round_trip_exists(r, rest),
        PagestreamFeMessage::Nblocks(r) => lemma_round_trip_nblocks(r, rest),
        PagestreamFeMessage::GetPage(r) => lemma_round_trip_get_page(r, rest),
        PagestreamFeMessage::DbSize(r) => lemma_round_trip_db_size(r, rest),
        PagestreamFeMessage::GetSlruPage(r) => lemma_round_trip_get_slru_page(r, rest),
    }
}

/// The first byte of every encoded request is the fixed tag of its variant.
pub proof fn lemma_request_tag(m: PagestreamFeMessage)
    ensures
        m.encoding()[0] == m.tag(),
        m.tag() == match m {
            PagestreamFeMessage::Exists(_) => 0u8,
            PagestreamFeMessage::Nblocks(_) => 1u8,
            PagestreamFeMessage::GetPage(_) => 2u8,
            PagestreamFeMessage::DbSize(_) => 3u8,
            PagestreamFeMessage::GetSlruPage(_) => 4u8,
        },
{
}

/// Input that ends before the last field its tag calls for is rejected: as
/// truncated, or, for an SLRU page request whose kind byte was reached and
/// stands for no kind, for that byte.
pub proof fn lemma_truncated_rejected(s: Seq<u8>)
    requires
        s.len() == 0 || (is_request_tag(s[0]) && s.len() < request_len(s[0])),
    ensures
        PagestreamFeMessage::decoding(s) is Err,
        !(s.len() > 10 && s[0] == TAG_GET_SLRU_PAGE && SlruKind::of_code(s[10]) is None)
            ==> PagestreamFeMessage::decoding(s) == Err::<PagestreamFeMessage, ProtocolError>(
            ProtocolError::Truncated,
        ),
{
}

/// A leading byte that is no request tag is rejected, naming that byte.
pub proof fn lemma_unknown_tag_rejected(s: Seq<u8>)
    requires
        s.len() >= 1,
        !is_request_tag(s[0]),
    ensures
        PagestreamFeMessage::decoding(s) == Err::<PagestreamFeMessage, ProtocolError>(
            ProtocolError::UnknownTag(s[0]),
        ),
{
}

/// An SLRU page request whose kind byte stands for no kind is rejected,
/// naming that byte.
pub proof fn lemma_invalid_slru_kind_rejected(s: Seq<u8>)
    requires
        s.len() > 10,
        s[0] == TAG_GET_SLRU_PAGE,
        s[10] > 2,
    ensures
        PagestreamFeMessage::decoding(s) == Err::<PagestreamFeMessage, ProtocolError>(
            ProtocolError::InvalidSlruKind(s[10]),
        ),
{
}

} // verus!
