//! Response shapes: the success envelopes, the error envelope, and the status
//! that goes with each.
use vstd::prelude::*;
use vstd::string::*;
use crate::text::{decimal_text, render_decimal};

verus! {

/// The two kinds of error a request can end in.
#[derive(Clone, Copy, Debug, PartialEq, Eq, Structural)]
pub enum ErrorKind {
    InvalidArgument,
    NotFound,
}

impl ErrorKind {
    /// The name of the kind as it appears in the `error` field.
    pub fn as_str(&self) -> (r: &'static str)
        ensures
            r@ == kind_name(*self),
    {
        match self {
            ErrorKind::InvalidArgument => "InvalidArgument",
            ErrorKind::NotFound => "NotFound",
        }
    }
}

pub open spec fn kind_name(k: ErrorKind) -> Seq<char> {
    match k {
        ErrorKind::InvalidArgument => "InvalidArgument"@,
        ErrorKind::NotFound => "NotFound"@,
    }
}

#[derive(Debug)]
pub struct PokemonResponse {
    pub id: i32,
    pub name: String,
}

#[derive(Debug)]
pub struct RegionResponse {
    pub id: i32,
    pub region_name: String,
}

#[derive(Debug)]
pub struct ErrorEnvelope {
    pub error: ErrorKind,
    pub message: String,
}

/// The body of a response: exactly one envelope.
#[derive(Debug)]
pub enum Body {
    Pokemon(PokemonResponse),
    Region(RegionResponse),
    PokemonList(Vec<PokemonResponse>),
    RegionList(Vec<RegionResponse>),
    Count(String),
    Error(ErrorEnvelope),
}

#[derive(Debug)]
pub struct ApiResponse {
    pub status: u16,
    pub body: Body,
}

/// A record as the client sees it: an id and a name.
pub type Record = (int, Seq<char>);

pub enum BodyView {
    Pokemon(Record),
    Region(Record),
    PokemonList(Seq<Record>),
    RegionList(Seq<Record>),
    Count(Seq<char>),
    Error(ErrorKind, Seq<char>),
}

pub struct ResponseView {
    pub status: u16,
    pub body: BodyView,
}

impl View for PokemonResponse {
    type V = Record;

    open spec fn view(&self) -> Record {
        (self.id as int, self.name@)
    }
}

impl View for RegionResponse {
    type V = Record;

    open spec fn view(&self) -> Record {
        (self.id as int, self.region_name@)
    }
}

impl View for Body {
    type V = BodyView;

    open spec fn view(&self) -> BodyView {
        match self {
            Body::Pokemon(p) => BodyView::Pokemon(p@),
            Body::Region(g) => BodyView::Region(g@),
            Body::PokemonList(v) => BodyView::PokemonList(v@.map_values(|p: PokemonResponse| p@)),
            Body::RegionList(v) => BodyView::RegionList(v@.map_values(|g: RegionResponse| g@)),
            Body::Count(s) => BodyView::Count(s@),
            Body::Error(e) => BodyView::Error(e.error, e.message@),
        }
    }
}

impl View for ApiResponse {
    type V = ResponseView;

    open spec fn view(&self) -> ResponseView {
        ResponseView { status: self.status, body: self.body@ }
    }
}

pub open spec fn success(body: BodyView) -> ResponseView {
    ResponseView { status: 200, body }
}

pub open spec fn invalid_argument(message: Seq<char>) -> ResponseView {
    ResponseView { status: 400, body: BodyView::Error(ErrorKind::InvalidArgument, message) }
}

pub open spec fn not_found_view() -> ResponseView {
    ResponseView { status: 404, body: BodyView::Error(ErrorKind::NotFound, "Invalid path"@) }
}

pub fn format_pokemon(id: i32, name: String) -> (r: PokemonResponse)
    ensures
        r@ == (id as int, name@),
{
    PokemonResponse { id, name }
}

pub fn format_region(id: i32, region_name: String) -> (r: RegionResponse)
    ensures
        r@ == (id as int, region_name@),
{
    RegionResponse { id, region_name }
}

/// The count envelope: the number in decimal, as a string.
pub fn format_count(n: usize) -> (r: Body)
    ensures
        r@ == BodyView::Count(decimal_text(n as nat)),
{
    Body::Count(render_decimal(n))
}

pub fn format_error(kind: ErrorKind, message: String) -> (r: ErrorEnvelope)
    ensures
        r.error == kind,
        r.message@ == message@,
{
    ErrorEnvelope { error: kind, message }
}

pub fn ok(body: Body) -> (r: ApiResponse)
    ensures
        r@ == success(body@),
{
    ApiResponse { status: 200, body }
}

/// A 400 response with an `InvalidArgument` envelope carrying `message`.
pub fn invalid_req(message: String) -> (r: ApiResponse)
    ensures
        r@ == invalid_argument(message@),
{
    ApiResponse { status: 400, body: Body::Error(format_error(ErrorKind::InvalidArgument, message)) }
}

/// The 404 response of a request that matches no route.
pub fn not_found() -> (r: ApiResponse)
    ensures
        r@ == not_found_view(),
{
    let message = String::from_str("Invalid path");
    ApiResponse { status: 404, body: Body::Error(format_error(ErrorKind::NotFound, message)) }
}

} // verus!
