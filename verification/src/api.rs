//! The HTTP surface: the table of routes, one handler per route, and the
//! dispatcher that takes a request to its handler.
//!
//! Requests and replies are plain values here. Whoever owns the socket reads
//! method, path and body, and turns the reply into status line and JSON.

use vstd::prelude::*;

use crate::assets::AssetReply;
use crate::assets::AssetReplyView;
use crate::assets::AssetResolver;
use crate::clock::read_utc_clock;
use crate::clock::Timestamp;
use crate::registry::views_of;
use crate::registry::TrackedObject;
use crate::store::AppState;
use crate::store::StateStore;
use crate::text::same_text;

verus! {

/// A JSON document, as `serde_json` holds it. Handlers carry request bodies
/// of this type and never look inside.
#[verifier::external_type_specification]
#[verifier::external_body]
pub struct ExJsonValue(serde_json::Value);

/// The name under which the service reports itself.
pub open spec fn service_name() -> Seq<char> {
    "OrbitalOS Satellite API"@
}

/// The version that the service reports.
pub open spec fn service_version() -> Seq<char> {
    "1.0.0"@
}

/// The one-line description of the service.
pub open spec fn service_description() -> Seq<char> {
    "Real-time satellite tracking and orbital mechanics API"@
}

/// The request methods that the API answers.
#[derive(Clone, Copy, Debug, PartialEq, Eq, Structural)]
pub enum Method {
    Get,
    Post,
}

impl Method {
    /// The method as it stands in a request line.
    pub open spec fn name_of(self) -> Seq<char> {
        match self {
            Method::Get => "GET"@,
            Method::Post => "POST"@,
        }
    }

    pub fn name(&self) -> (name: &'static str)
        ensures
            name@ == self.name_of(),
    {
        match self {
            Method::Get => "GET",
            Method::Post => "POST",
        }
    }
}

/// The routes of the API.
#[derive(Clone, Copy, Debug, PartialEq, Eq, Structural)]
pub enum Endpoint {
    Health,
    Info,
    Satellites,
    ConjunctionAnalysis,
    CreateReservation,
}

impl Endpoint {
    /// The method that the route answers.
    pub open spec fn method_of(self) -> Method {
        match self {
            Endpoint::Health => Method::Get,
            Endpoint::Info => Method::Get,
            Endpoint::Satellites => Method::Get,
            Endpoint::ConjunctionAnalysis => Method::Post,
            Endpoint::CreateReservation => Method::Post,
        }
    }

    /// The path of the route.
    pub open spec fn path_of(self) -> Seq<char> {
        match self {
            Endpoint::Health => "/health"@,
            Endpoint::Info => "/api/info"@,
            Endpoint::Satellites => "/api/satellites"@,
            Endpoint::ConjunctionAnalysis => "/api/satellites/conjunction-analysis"@,
            Endpoint::CreateReservation => "/api/satellites/create-reservation"@,
        }
    }

    /// What the info document says of the route.
    pub open spec fn description_of(self) -> Seq<char> {
        match self {
            Endpoint::Health => "Health check endpoint"@,
            Endpoint::Info => "API information"@,
            Endpoint::Satellites => "Get satellite data"@,
            Endpoint::ConjunctionAnalysis => "Analyze satellite conjunctions"@,
            Endpoint::CreateReservation => "Create orbit reservation"@,
        }
    }

    /// Whether the route reads a JSON body.
    pub open spec fn takes_body(self) -> bool {
        self.method_of() == Method::Post
    }

    pub fn method(&self) -> (method: Method)
        ensures
            method == self.method_of(),
    {
        match self {
            Endpoint::Health => Method::Get,
            Endpoint::Info => Method::Get,
            Endpoint::Satellites => Method::Get,
            Endpoint::ConjunctionAnalysis => Method::Post,
            Endpoint::CreateReservation => Method::Post,
        }
    }

    pub fn path(&self) -> (path: &'static str)
        ensures
            path@ == self.path_of(),
    {
        match self {
            Endpoint::Health => "/health",
            Endpoint::Info => "/api/info",
            Endpoint::Satellites => "/api/satellites",
            Endpoint::ConjunctionAnalysis => "/api/satellites/conjunction-analysis",
            Endpoint::CreateReservation => "/api/satellites/create-reservation",
        }
    }

    pub fn description(&self) -> (description: &'static str)
        ensures
            description@ == self.description_of(),
    {
        match self {
            Endpoint::Health => "Health check endpoint",
            Endpoint::Info => "API information",
            Endpoint::Satellites => "Get satellite data",
            Endpoint::ConjunctionAnalysis => "Analyze satellite conjunctions",
            Endpoint::CreateReservation => "Create orbit reservation",
        }
    }
}

/// Every route, in the order in which the info document lists them.
pub open spec fn all_endpoints() -> Seq<Endpoint> {
    seq![
        Endpoint::Health,
        Endpoint::Info,
        Endpoint::Satellites,
        Endpoint::ConjunctionAnalysis,
        Endpoint::CreateReservation,
    ]
}

/// Every route, in the order in which the info document lists them.
pub fn endpoints() -> (table: Vec<Endpoint>)
    ensures
        table@ == all_endpoints(),
{
    let mut table: Vec<Endpoint> = Vec::new();
    table.push(Endpoint::Health);
    table.push(Endpoint::Info);
    table.push(Endpoint::Satellites);
    table.push(Endpoint::ConjunctionAnalysis);
    table.push(Endpoint::CreateReservation);
    assert(table@ =~= all_endpoints());
    table
}

/// The route that lives at a path, whatever the method.
pub open spec fn endpoint_at(path: Seq<char>) -> Option<Endpoint> {
    if path == Endpoint::Health.path_of() {
        Some(Endpoint::Health)
    } else if path == Endpoint::Info.path_of() {
        Some(Endpoint::Info)
    } else if path == Endpoint::Satellites.path_of() {
        Some(Endpoint::Satellites)
    } else if path == Endpoint::ConjunctionAnalysis.path_of() {
        Some(Endpoint::ConjunctionAnalysis)
    } else if path == Endpoint::CreateReservation.path_of() {
        Some(Endpoint::CreateReservation)
    } else {
        None
    }
}

/// Where a request goes.
#[derive(Clone, Copy, Debug, PartialEq, Eq, Structural)]
pub enum Route {
    /// To the handler of this route.
    Api(Endpoint),
    /// Nowhere: the path is this route's, the method is not.
    WrongMethod(Endpoint),
    /// To the asset resolver: the path is no route's.
    Asset,
}

/// Where a request with this method and path goes. Method and path are
/// compared as they stand, letter for letter.
pub open spec fn route_of(method: Seq<char>, path: Seq<char>) -> Route {
    match endpoint_at(path) {
        Some(endpoint) => if method == endpoint.method_of().name_of() {
            Route::Api(endpoint)
        } else {
            Route::WrongMethod(endpoint)
        },
        None => Route::Asset,
    }
}

/// The route that lives at a path, whatever the method.
pub fn find_endpoint(path: &str) -> (found: Option<Endpoint>)
    ensures
        found == endpoint_at(path@),
{
    if same_text(path, Endpoint::Health.path()) {
        Some(Endpoint::Health)
    } else if same_text(path, Endpoint::Info.path()) {
        Some(Endpoint::Info)
    } else if same_text(path, Endpoint::Satellites.path()) {
        Some(Endpoint::Satellites)
    } else if same_text(path, Endpoint::ConjunctionAnalysis.path()) {
        Some(Endpoint::ConjunctionAnalysis)
    } else if same_text(path, Endpoint::CreateReservation.path()) {
        Some(Endpoint::CreateReservation)
    } else {
        None
    }
}

/// Where a request with this method and path goes.
pub fn route(method: &str, path: &str) -> (target: Route)
    ensures
        target == route_of(method@, path@),
{
    match find_endpoint(path) {
        Some(endpoint) => {
            if same_text(method, endpoint.method().name()) {
                Route::Api(endpoint)
            } else {
                Route::WrongMethod(endpoint)
            }
        },
        None => Route::Asset,
    }
}

/// The routes are told apart by their paths: each route is the one found at
/// its own path, and is reached with its own method.
pub proof fn lemma_every_endpoint_is_routed(endpoint: Endpoint)
    ensures
        endpoint_at(endpoint.path_of()) == Some(endpoint),
        route_of(endpoint.method_of().name_of(), endpoint.path_of()) == Route::Api(endpoint),
        all_endpoints().contains(endpoint),
{
    reveal_strlit("/health");
    reveal_strlit("/api/info");
    reveal_strlit("/api/satellites");
    reveal_strlit("/api/satellites/conjunction-analysis");
    reveal_strlit("/api/satellites/create-reservation");
    assert("/health"@.len() == 7);
    assert("/api/info"@.len() == 9);
    assert("/api/satellites"@.len() == 15);
    assert("/api/satellites/conjunction-analysis"@.len() == 36);
    assert("/api/satellites/create-reservation"@.len() == 34);
    match endpoint {
        Endpoint::Health => {
            assert(all_endpoints()[0] == endpoint);
        },
        Endpoint::Info => {
            assert(all_endpoints()[1] == endpoint);
        },
        Endpoint::Satellites => {
            assert(all_endpoints()[2] == endpoint);
        },
        Endpoint::ConjunctionAnalysis => {
            assert(all_endpoints()[3] == endpoint);
        },
        Endpoint::CreateReservation => {
            assert(all_endpoints()[4] == endpoint);
        },
    }
}

/// The routes are those of the table and no others: a path leads to a route
/// exactly when it is that route's path.
pub proof fn lemma_routes_are_the_table(path: Seq<char>, endpoint: Endpoint)
    ensures
        endpoint_at(path) == Some(endpoint) <==> path == endpoint.path_of(),
        endpoint_at(path) matches Some(found) ==> all_endpoints().contains(found),
{
    lemma_every_endpoint_is_routed(endpoint);
    if let Some(found) = endpoint_at(path) {
        lemma_every_endpoint_is_routed(found);
    }
}

/// The body of `GET /health`.
#[derive(Debug)]
pub struct HealthResponse {
    pub status: &'static str,
    pub service: &'static str,
    pub version: &'static str,
    pub satellites_count: usize,
}

impl HealthResponse {
    /// The one health report there is for a registry of `count` objects.
    pub open spec fn reports(&self, count: nat) -> bool {
        &&& self.status@ == "healthy"@
        &&& self.service@ == service_name()
        &&& self.version@ == service_version()
        &&& self.satellites_count == count
    }
}

/// One line of the info document.
#[derive(Debug)]
pub struct ApiEndpoint {
    pub method: String,
    pub path: String,
    pub description: String,
}

impl ApiEndpoint {
    /// The line says method, path and description of `endpoint`.
    pub open spec fn describes(&self, endpoint: Endpoint) -> bool {
        &&& self.method@ == endpoint.method_of().name_of()
        &&& self.path@ == endpoint.path_of()
        &&& self.description@ == endpoint.description_of()
    }
}

/// The body of `GET /api/info`.
#[derive(Debug)]
pub struct ApiInfo {
    pub name: String,
    pub version: String,
    pub description: String,
    pub endpoints: Vec<ApiEndpoint>,
}

impl ApiInfo {
    /// The document names the service and lists every route, each once and
    /// in table order.
    pub open spec fn is_catalog(&self) -> bool {
        &&& self.name@ == service_name()
        &&& self.version@ == service_version()
        &&& self.description@ == service_description()
        &&& self.endpoints@.len() == all_endpoints().len()
        &&& forall|i: int|
            0 <= i < all_endpoints().len() ==> (#[trigger] self.endpoints@[i]).describes(
                all_endpoints()[i],
            )
    }
}

/// The body of `GET /api/satellites`.
#[derive(Debug)]
pub struct SatelliteList {
    pub satellites: Vec<TrackedObject>,
    pub count: usize,
}

impl SatelliteList {
    /// The list holds the objects of `store`, each once and in order, and
    /// counts them.
    pub open spec fn lists(&self, store: &StateStore) -> bool {
        &&& self.count == self.satellites@.len()
        &&& self.count == store.identity().len()
        &&& store.holds(views_of(self.satellites@))
    }
}

/// The body that stands in for a conjunction analysis.
#[derive(Debug)]
pub struct ConjunctionAnalysis {
    /// Pairs of identifiers of objects that come close to each other.
    pub conjunctions: Vec<(u64, u64)>,
    pub analysis_time: Timestamp,
    pub message: &'static str,
}

impl ConjunctionAnalysis {
    /// The placeholder made at `at`: it lists no conjunction.
    pub open spec fn is_placeholder(&self, at: Timestamp) -> bool {
        &&& self.conjunctions@.len() == 0
        &&& self.analysis_time == at
        &&& self.message@ == "Conjunction analysis feature coming soon"@
    }
}

/// The body that stands in for a created reservation.
#[derive(Debug)]
pub struct ReservationReceipt {
    pub reservation_id: &'static str,
    pub status: &'static str,
    pub message: &'static str,
}

impl ReservationReceipt {
    /// The one placeholder receipt.
    pub open spec fn is_placeholder(&self) -> bool {
        &&& self.reservation_id@ == "res_123456"@
        &&& self.status@ == "created"@
        &&& self.message@ == "Reservation created successfully"@
    }
}

/// The answers of routes whose business logic is yet to be written.
#[derive(Debug)]
pub enum Placeholder {
    Conjunctions(ConjunctionAnalysis),
    Reservation(ReservationReceipt),
}

/// The health report for a registry of `count` objects.
pub fn health_response(count: usize) -> (response: HealthResponse)
    ensures
        response.reports(count as nat),
{
    HealthResponse {
        status: "healthy",
        service: "OrbitalOS Satellite API",
        version: "1.0.0",
        satellites_count: count,
    }
}

/// Handles `GET /health`: reports the service and how many objects it
/// tracks.
pub fn health_check(data: &AppState) -> (response: HealthResponse)
    ensures
        response.reports(data.satellite_service.identity().len()),
{
    let satellites = data.satellite_service.snapshot();
    health_response(satellites.len())
}

/// Handles `GET /api/info`: names the service and lists its routes.
pub fn api_info() -> (info: ApiInfo)
    ensures
        info.is_catalog(),
{
    let table = endpoints();
    let mut lines: Vec<ApiEndpoint> = Vec::new();
    let mut i: usize = 0;
    while i < table.len()
        invariant
            table@ == all_endpoints(),
            i <= table.len(),
            lines.len() == i,
            forall|k: int| 0 <= k < i ==> (#[trigger] lines@[k]).describes(all_endpoints()[k]),
        decreases table.len() - i,
    {
        let endpoint = table[i];
        lines.push(
            ApiEndpoint {
                method: endpoint.method().name().to_owned(),
                path: endpoint.path().to_owned(),
                description: endpoint.description().to_owned(),
            },
        );
        i += 1;
    }
    ApiInfo {
        name: "OrbitalOS Satellite API".to_owned(),
        version: "1.0.0".to_owned(),
        description: "Real-time satellite tracking and orbital mechanics API".to_owned(),
        endpoints: lines,
    }
}

/// The list body for a snapshot.
pub fn satellite_list(satellites: Vec<TrackedObject>) -> (list: SatelliteList)
    ensures
        list.satellites == satellites,
        list.count == satellites@.len(),
{
    let count = satellites.len();
    SatelliteList { satellites, count }
}

/// Handles `GET /api/satellites`: one snapshot of the registry, and its
/// length.
pub fn get_satellites(data: &AppState) -> (list: SatelliteList)
    ensures
        list.lists(&*data.satellite_service),
{
    satellite_list(data.satellite_service.snapshot())
}

/// The placeholder analysis made at `at`.
pub fn conjunction_placeholder(at: Timestamp) -> (analysis: ConjunctionAnalysis)
    ensures
        analysis.is_placeholder(at),
{
    ConjunctionAnalysis {
        conjunctions: Vec::new(),
        analysis_time: at,
        message: "Conjunction analysis feature coming soon",
    }
}

/// Handles `POST /api/satellites/conjunction-analysis`: whatever the body
/// holds, answers with the placeholder, stamped with what the clock says
/// during the call.
pub fn analyze_conjunctions(req: &serde_json::Value) -> (analysis: ConjunctionAnalysis)
    ensures
        analysis.is_placeholder(analysis.analysis_time),
{
    conjunction_placeholder(read_utc_clock())
}

/// Handles `POST /api/satellites/create-reservation`: whatever the body
/// holds, answers with the one placeholder receipt.
pub fn create_reservation(req: &serde_json::Value) -> (receipt: ReservationReceipt)
    ensures
        receipt.is_placeholder(),
{
    ReservationReceipt {
        reservation_id: "res_123456",
        status: "created",
        message: "Reservation created successfully",
    }
}

/// Every placeholder receipt carries an identifier that is not empty and the
/// status `created`.
pub proof fn lemma_receipt_is_created(receipt: ReservationReceipt)
    requires
        receipt.is_placeholder(),
    ensures
        receipt.reservation_id@.len() > 0,
        receipt.status@ == "created"@,
{
    reveal_strlit("res_123456");
}

/// What the service answers to a request.
#[derive(Debug)]
pub enum Reply {
    Health(HealthResponse),
    Info(ApiInfo),
    Satellites(SatelliteList),
    /// The fixed answer of a route whose business logic is yet to be
    /// written.
    NotYetImplemented(Placeholder),
    /// The route reads a JSON body, and the request brought none that
    /// parses.
    BadRequest,
    /// The path is a route's, the method is not.
    MethodNotAllowed,
    /// The path is no route's: what the asset resolver says.
    Asset(AssetReply),
}

impl Reply {
    /// The HTTP status that goes with a reply. There is none where the
    /// reply leaves the request to the file server of the frontend
    /// directory, which sets the status itself.
    pub open spec fn status_of(&self) -> Option<u16> {
        match self {
            Reply::BadRequest => Some(400),
            Reply::MethodNotAllowed => Some(405),
            Reply::Asset(AssetReply::NotFound) => Some(404),
            Reply::Asset(AssetReply::FromDirectory) => None,
            _ => Some(200),
        }
    }

    /// The HTTP status that goes with a reply.
    pub fn status(&self) -> (code: Option<u16>)
        ensures
            code == self.status_of(),
    {
        match self {
            Reply::BadRequest => Some(400),
            Reply::MethodNotAllowed => Some(405),
            Reply::Asset(AssetReply::NotFound) => Some(404),
            Reply::Asset(AssetReply::FromDirectory) => None,
            _ => Some(200),
        }
    }
}

/// Takes each request to the one handler of its route.
pub struct RequestDispatcher {
    pub state: AppState,
    pub assets: AssetResolver,
}

impl RequestDispatcher {
    /// Whether `reply` is what the route of the request owes.
    ///
    /// `has_body` says whether the request brought a JSON body that parses.
    /// Routes that read none ignore it.
    pub open spec fn owes(
        &self,
        method: Seq<char>,
        path: Seq<char>,
        has_body: bool,
        reply: Reply,
    ) -> bool {
        match route_of(method, path) {
            Route::Api(Endpoint::Health) => reply matches Reply::Health(response)
                && response.reports(self.state.satellite_service.identity().len()),
            Route::Api(Endpoint::Info) => reply matches Reply::Info(info) && info.is_catalog(),
            Route::Api(Endpoint::Satellites) => reply matches Reply::Satellites(list) && list.lists(
                &*self.state.satellite_service,
            ),
            Route::Api(Endpoint::ConjunctionAnalysis) => if has_body {
                reply matches Reply::NotYetImplemented(Placeholder::Conjunctions(analysis))
                    && analysis.is_placeholder(analysis.analysis_time)
            } else {
                reply is BadRequest
            },
            Route::Api(Endpoint::CreateReservation) => if has_body {
                reply matches Reply::NotYetImplemented(Placeholder::Reservation(receipt))
                    && receipt.is_placeholder()
            } else {
                reply is BadRequest
            },
            Route::WrongMethod(_) => reply is MethodNotAllowed,
            Route::Asset => reply matches Reply::Asset(asset) && asset@ == self.assets.answer(
                path,
            ),
        }
    }

    /// Answers one request. `body` is the JSON body where the request
    /// brought one that parses.
    ///
    /// The registry is read at most once, through one snapshot, and never
    /// written.
    pub fn dispatch(&self, method: &str, path: &str, body: Option<&serde_json::Value>) -> (reply:
        Reply)
        ensures
            self.owes(method@, path@, body is Some, reply),
    {
        match route(method, path) {
            Route::Api(Endpoint::Health) => Reply::Health(health_check(&self.state)),
            Route::Api(Endpoint::Info) => Reply::Info(api_info()),
            Route::Api(Endpoint::Satellites) => Reply::Satellites(get_satellites(&self.state)),
            Route::Api(Endpoint::ConjunctionAnalysis) => match body {
                Some(req) => Reply::NotYetImplemented(
                    Placeholder::Conjunctions(analyze_conjunctions(req)),
                ),
                None => Reply::BadRequest,
            },
            Route::Api(Endpoint::CreateReservation) => match body {
                Some(req) => Reply::NotYetImplemented(
                    Placeholder::Reservation(create_reservation(req)),
                ),
                None => Reply::BadRequest,
            },
            Route::WrongMethod(_) => Reply::MethodNotAllowed,
            Route::Asset => Reply::Asset(self.assets.resolve(path)),
        }
    }
}

/// A request that reaches a route with the route's method, and with a body
/// where the route reads one, is answered with status 200, whatever the
/// asset resolver holds.
pub proof fn lemma_api_routes_succeed(
    dispatcher: RequestDispatcher,
    endpoint: Endpoint,
    has_body: bool,
    reply: Reply,
)
    requires
        endpoint.takes_body() ==> has_body,
        dispatcher.owes(endpoint.method_of().name_of(), endpoint.path_of(), has_body, reply),
    ensures
        reply.status_of() == Some(200u16),
{
    lemma_every_endpoint_is_routed(endpoint);
}

/// Without directory and bundle, a request for a path that is no route's is
/// answered with status 404.
pub proof fn lemma_no_assets_no_page(
    dispatcher: RequestDispatcher,
    method: Seq<char>,
    path: Seq<char>,
    has_body: bool,
    reply: Reply,
)
    requires
        dispatcher.assets == AssetResolver::Unavailable,
        endpoint_at(path) is None,
        dispatcher.owes(method, path, has_body, reply),
    ensures
        reply.status_of() == Some(404u16),
{
    assert(reply matches Reply::Asset(asset) && asset@ == AssetReplyView::NotFound);
}

} // verus!
