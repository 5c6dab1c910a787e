//! The scan state machine: begin, iterate, end.
//!
//! A scan starts idle. `begin_scan` resolves the table, reads the parameters
//! and hands back the one request to make; `complete_scan` takes the answer
//! and decodes it. `iter_scan` then yields one row per call until the cursor
//! reaches the row count, and keeps signalling the end from there;
//! `end_scan` makes the scan idle again. Any failure on the way in leaves it
//! idle. Writes are refused in every state and change nothing.

use vstd::prelude::*;
use crate::decode::{alerts_data_of, decode_body, decodes, decoded};
use crate::endpoint::{EndpointType, table_endpoint};
use crate::error::{ErrorKind, FdwError};
use crate::json::{member, parsed_document};
use crate::params::{Qual, QueryParameters, extract_params, extraction_error, params_of};
use crate::project::{Cell, cell_at, get_cell_value, has_column};
use crate::request::{ApiConfig, Request, create_request, query_of};
use crate::rowset::EndpointData;

verus! {

/// The base URL that requests go to unless the server options name another.
pub const DEFAULT_API_URL: &'static str = "https://api.openweathermap.org/data/3.0";

/// The state of one scan.
#[derive(Debug)]
pub struct OpenWeatherFdw {
    pub config: ApiConfig,
    /// The endpoint of the scan under way.
    pub endpoint_type: Option<EndpointType>,
    /// The parameters of the scan under way.
    pub params: Option<QueryParameters>,
    /// The decoded response; `Empty` until it has come.
    pub data: EndpointData,
    /// The row that the next call of `iter_scan` yields.
    pub current_row: usize,
}

impl OpenWeatherFdw {
    /// No scan under way.
    pub open spec fn idle(&self) -> bool {
        &&& self.endpoint_type is None
        &&& self.params is None
        &&& self.data is Empty
        &&& self.current_row == 0
    }

    /// A request has been handed out and its answer not yet taken.
    pub open spec fn awaiting(&self) -> bool {
        &&& self.endpoint_type is Some
        &&& self.params is Some
        &&& self.data is Empty
        &&& self.current_row == 0
    }

    /// Every row has been yielded: the next `iter_scan` signals the end.
    pub open spec fn exhausted(&self) -> bool {
        self.current_row >= self.data.spec_row_count()
    }

    /// Whether `t` is `s` with only the cursor, possibly, moved.
    pub open spec fn same_scan(s: OpenWeatherFdw, t: OpenWeatherFdw) -> bool {
        &&& t.config == s.config
        &&& t.endpoint_type == s.endpoint_type
        &&& t.params == s.params
        &&& t.data == s.data
    }

    /// A state with the given configuration and no scan under way.
    pub fn new(config: ApiConfig) -> (r: OpenWeatherFdw)
        ensures
            r.config == config,
            r.idle(),
    {
        OpenWeatherFdw { config, endpoint_type: None, params: None, data: EndpointData::Empty, current_row: 0 }
    }

    /// Sets up from the server options: the API URL, defaulting to the
    /// public one, and the API key, which is required.
    pub fn init(api_url: Option<String>, api_key: Option<String>) -> (r: Result<OpenWeatherFdw, FdwError>)
        ensures
            r is Ok <==> api_key is Some,
            r matches Ok(s) ==> s.idle() && s.config.api_key == api_key->Some_0 && match api_url {
                Some(u) => s.config.base_url == u,
                None => s.config.base_url@ == DEFAULT_API_URL@,
            },
            r matches Err(e) ==> e.kind == ErrorKind::MissingRequiredParameter,
    {
        let api_key = match api_key {
            Some(k) => k,
            None => return Err(FdwError::new(ErrorKind::MissingRequiredParameter, "api_key is required in server options")),
        };
        let base_url = match api_url {
            Some(u) => u,
            None => DEFAULT_API_URL.to_owned(),
        };
        Ok(OpenWeatherFdw::new(ApiConfig { base_url, api_key }))
    }

    /// Makes the scan idle, keeping the configuration.
    fn reset(&mut self)
        ensures
            final(self).idle(),
            final(self).config == old(self).config,
    {
        self.endpoint_type = None;
        self.params = None;
        self.data = EndpointData::Empty;
        self.current_row = 0;
    }

    /// Starts a scan of `table` with the predicates `quals`: resolves the
    /// endpoint, reads and checks the parameters and returns the request to
    /// make. Nothing is requested where any of that fails; the scan is then idle.
    pub fn begin_scan(&mut self, table: &str, quals: &Vec<Qual>) -> (r: Result<Request, FdwError>)
        ensures
            final(self).config == old(self).config,
            table_endpoint(table@) is None ==> (r matches Err(e) && e.kind == ErrorKind::UnsupportedEndpoint),
            table_endpoint(table@) matches Some(e) ==> {
                &&& r is Ok <==> extraction_error(quals@, e) is None
                &&& r matches Err(err) ==> extraction_error(quals@, e) == Some(err.kind)
            },
            r matches Ok(req) ==> {
                &&& final(self).awaiting()
                &&& final(self).endpoint_type == table_endpoint(table@)
                &&& params_of(quals@, table_endpoint(table@)->Some_0, final(self).params->Some_0)
                &&& req.url@ == old(self).config.base_url@ + table_endpoint(table@)->Some_0.spec_api_path()
                    + query_of(table_endpoint(table@)->Some_0, final(self).params->Some_0, old(self).config.api_key@)
            },
            r is Err ==> final(self).idle(),
    {
        self.reset();
        let e = match EndpointType::from_object_name(table) {
            Ok(e) => e,
            Err(err) => return Err(err),
        };
        let params = match extract_params(quals, e) {
            Ok(p) => p,
            Err(err) => return Err(err),
        };
        let req = match create_request(&self.config, e, &params) {
            Ok(req) => req,
            Err(err) => return Err(err),
        };
        self.endpoint_type = Some(e);
        self.params = Some(params);
        Ok(req)
    }

    /// Takes the answer to the request of `begin_scan`: a status outside
    /// 200..=299 is a transport error; otherwise the body is decoded for the
    /// endpoint and the cursor set to the first row. On any failure the scan
    /// is idle.
    pub fn complete_scan(&mut self, status: u16, body: &str) -> (r: Result<(), FdwError>)
        requires
            old(self).awaiting(),
        ensures
            final(self).config == old(self).config,
            !(200 <= status <= 299) ==> (r matches Err(e) && e.kind == ErrorKind::TransportError),
            (200 <= status <= 299) ==> {
                &&& r is Ok <==> (parsed_document(body@) matches Some(doc)
                    && decodes(old(self).endpoint_type->Some_0, doc))
                &&& r matches Err(e) ==> e.kind == ErrorKind::MalformedResponse
            },
            r is Ok ==> {
                &&& final(self).endpoint_type == old(self).endpoint_type
                &&& final(self).params == old(self).params
                &&& final(self).current_row == 0
                &&& decoded(
                    old(self).endpoint_type->Some_0,
                    parsed_document(body@)->Some_0,
                    old(self).params->Some_0.latitude@,
                    old(self).params->Some_0.longitude@,
                    final(self).data,
                )
            },
            r is Err ==> final(self).idle(),
    {
        if status < 200 || status > 299 {
            self.reset();
            return Err(FdwError::new(ErrorKind::TransportError, "HTTP request failed with a non-success status"));
        }
        let e = self.endpoint_type.unwrap();
        let p = self.params.as_ref().unwrap();
        let decoded = decode_body(e, body, &p.latitude, &p.longitude);
        match decoded {
            Ok(d) => {
                self.data = d;
                self.current_row = 0;
                Ok(())
            },
            Err(err) => {
                self.reset();
                Err(err)
            },
        }
    }

    /// Yields the next row: one cell for each of `columns`, in order, and
    /// moves the cursor on. Past the last row it signals the end (`None`) and
    /// changes nothing. A column that the table lacks fails the call and
    /// leaves the cursor where it was.
    pub fn iter_scan(&mut self, columns: &Vec<String>) -> (r: Result<Option<Vec<Cell>>, FdwError>)
        ensures
            OpenWeatherFdw::same_scan(*old(self), *final(self)),
            old(self).exhausted() ==> (r matches Ok(None) && final(self).current_row == old(self).current_row),
            !old(self).exhausted() ==> {
                &&& r is Ok <==> forall|j: int| 0 <= j < columns@.len()
                    ==> has_column(old(self).data, #[trigger] columns@[j]@)
                &&& r matches Ok(row) ==> (row matches Some(cells) && {
                    &&& cells@.len() == columns@.len()
                    &&& forall|j: int| 0 <= j < columns@.len()
                        ==> cell_at(old(self).data, old(self).current_row as int, #[trigger] columns@[j]@, cells@[j])
                    &&& final(self).current_row == old(self).current_row + 1
                })
                &&& r matches Err(e) ==> (e.kind == ErrorKind::UnknownColumn
                    && final(self).current_row == old(self).current_row)
            },
    {
        if self.current_row >= self.data.row_count() {
            return Ok(None);
        }
        let mut cells: Vec<Cell> = Vec::new();
        let mut j: usize = 0;
        while j < columns.len()
            invariant
                !self.exhausted(),
                j <= columns@.len(),
                cells@.len() == j,
                forall|k: int| 0 <= k < j ==> has_column(self.data, #[trigger] columns@[k]@),
                forall|k: int| 0 <= k < j
                    ==> cell_at(self.data, self.current_row as int, #[trigger] columns@[k]@, cells@[k]),
            decreases columns@.len() - j,
        {
            match get_cell_value(&self.data, self.current_row, columns[j].as_str()) {
                Ok(c) => cells.push(c),
                Err(e) => {
                    assert(!has_column(self.data, columns@[j as int]@));
                    return Err(e);
                },
            }
            j = j + 1;
        }
        self.current_row = self.current_row + 1;
        Ok(Some(cells))
    }

    /// Ends the scan: drops its parameters and rows. Ending an idle scan changes nothing.
    pub fn end_scan(&mut self)
        ensures
            final(self).idle(),
            final(self).config == old(self).config,
    {
        self.reset();
    }

    /// Rescans: does nothing, neither rewinding the cursor nor fetching again.
    pub fn re_scan(&mut self) -> (r: Result<(), FdwError>)
        ensures
            r is Ok,
            *final(self) == *old(self),
    {
        Ok(())
    }

    /// Refuses a write: this table cannot be modified.
    pub fn begin_modify(&mut self) -> (r: Result<(), FdwError>)
        ensures
            r matches Err(e) && e.kind == ErrorKind::UnsupportedOperation,
            *final(self) == *old(self),
    {
        Err(FdwError::new(ErrorKind::UnsupportedOperation, "OpenWeather FDW does not support data modification"))
    }

    /// Refuses an insert.
    pub fn insert(&mut self, _row: &Vec<Cell>) -> (r: Result<(), FdwError>)
        ensures
            r matches Err(e) && e.kind == ErrorKind::UnsupportedOperation,
            *final(self) == *old(self),
    {
        Err(FdwError::new(ErrorKind::UnsupportedOperation, "OpenWeather FDW does not support INSERT"))
    }

    /// Refuses an update.
    pub fn update(&mut self, _rowid: &Cell, _row: &Vec<Cell>) -> (r: Result<(), FdwError>)
        ensures
            r matches Err(e) && e.kind == ErrorKind::UnsupportedOperation,
            *final(self) == *old(self),
    {
        Err(FdwError::new(ErrorKind::UnsupportedOperation, "OpenWeather FDW does not support UPDATE"))
    }

    /// Refuses a delete.
    pub fn delete(&mut self, _rowid: &Cell) -> (r: Result<(), FdwError>)
        ensures
            r matches Err(e) && e.kind == ErrorKind::UnsupportedOperation,
            *final(self) == *old(self),
    {
        Err(FdwError::new(ErrorKind::UnsupportedOperation, "OpenWeather FDW does not support DELETE"))
    }

    /// Refuses the end of a write.
    pub fn end_modify(&mut self) -> (r: Result<(), FdwError>)
        ensures
            r matches Err(e) && e.kind == ErrorKind::UnsupportedOperation,
            *final(self) == *old(self),
    {
        Err(FdwError::new(ErrorKind::UnsupportedOperation, "OpenWeather FDW does not support data modification"))
    }
}

/// After `end_scan`, the next `iter_scan` signals the end of the data: an
/// idle scan has no rows left to yield.
pub proof fn lemma_end_then_next(s: OpenWeatherFdw)
    requires
        s.idle(),
    ensures
        s.exhausted(),
{
}

/// A response without an `alerts` member decodes to an alert table with no
/// rows, and iterating it signals the end of the data at once.
pub proof fn lemma_no_alerts_no_rows(doc: crate::json::Json, lat: Seq<char>, lon: Seq<char>, s: OpenWeatherFdw)
    requires
        member(doc, "alerts"@) is None,
        alerts_data_of(doc, lat, lon, s.data),
    ensures
        s.data.spec_row_count() == 0,
        s.exhausted(),
{
}

} // verus!
