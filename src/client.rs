use vstd::prelude::*;
use crate::batch::BatchHeaderHash;
use crate::cache::{ResponseCache, bounded, upserted};
use crate::error::ClientError;
use crate::payload::{EigenDaBlobPayload, EigenDaBlobPayloadView, SecurityParams, payload_wire};
use crate::response::BlobResponse;
use crate::status::BlobResult;
use crate::wire::{
    decimal, json_document, json_document_of, json_string_literal, push_decimal, quote_json,
    regex_replaced, replace_all_matches,
};

verus! {

pub const DEFAULT_EIGENDA_SERVER_ADDRESS: &'static str = "disperser-holesky.eigenda.xyz:443";

pub const EIGENDA_PROTO_PATH: &'static str = "eigenda/api/proto";

pub const EIGENDA_COMMON_PROTO_FILENAME: &'static str = "common.proto";

pub const EIGENDA_DISPERSER_PROTO_FILENAME: &'static str = "disperser.proto";

/// Method that disperses a blob.
pub const DISPERSE_BLOB: &'static str = "disperser.Disperser/DisperseBlob";

/// Method that reports the status of a dispersal request.
pub const GET_BLOB_STATUS: &'static str = "disperser.Disperser/GetBlobStatus";

/// Method that retrieves a dispersed blob.
pub const RETRIEVE_BLOB: &'static str = "disperser.Disperser/RetrieveBlob";

/// Escaped line breaks and tabs, and runs of whitespace, in a status reply.
pub const REPLY_NOISE_PATTERN: &'static str = "(\\\\n|\\\\t|\\n\\t|\\s\\s+)";

/// A call for the transport to make: `method` on `server_address`, with the request `data`,
/// described by the protocol files under `import_path` and `proto`.
#[derive(Clone, Debug, PartialEq, Eq)]
pub struct GrpcCall {
    pub import_path: String,
    pub proto: String,
    pub data: String,
    pub server_address: String,
    pub method: String,
}

/// What the transport reports of a call: whether it succeeded, and its two output streams.
#[derive(Clone, Debug, PartialEq, Eq)]
pub struct GrpcOutput {
    pub success: bool,
    pub stdout: String,
    pub stderr: String,
}

pub struct EigenDaGrpcClientView {
    pub proto_path: Seq<char>,
    pub disperser_path: Seq<char>,
    pub server_address: Seq<char>,
    pub security_params: Option<SecurityParams>,
}

/// Status-query request: `{"request_id":<literal>}`.
pub open spec fn status_request_wire(request_id: Seq<char>) -> Seq<char> {
    "{\"request_id\":"@ + json_string_literal(request_id) + "}"@
}

/// Retrieval request: `{"batch_header_hash":<literal>,"blob_index":<literal of the decimal>}`.
pub open spec fn retrieve_request_wire(batch_header_hash: Seq<char>, blob_index: nat) -> Seq<char> {
    "{\"batch_header_hash\":"@ + json_string_literal(batch_header_hash) + ",\"blob_index\":"@
        + json_string_literal(decimal(blob_index)) + "}"@
}

/// The JSON document of a status reply, once escaped line breaks and runs of whitespace are
/// made single spaces (left as they are if the pattern did not compile).
pub open spec fn status_document_of(reply: Seq<char>) -> Option<Seq<char>> {
    match regex_replaced(REPLY_NOISE_PATTERN@, reply, " "@) {
        Some(cleaned) => json_document_of(cleaned),
        None => json_document_of(reply),
    }
}

/// A dispersal succeeded when the network took the blob in.
pub open spec fn dispersal_accepted(r: BlobResult) -> bool {
    r is Processing || r is Confirmed
}

/// Client of a disperser: builds each call, and settles what comes back.
#[derive(Clone, Debug, PartialEq, Eq)]
pub struct EigenDaGrpcClient {
    proto_path: String,
    disperser_path: String,
    server_address: String,
    security_params: Option<SecurityParams>,
}

impl View for EigenDaGrpcClient {
    type V = EigenDaGrpcClientView;

    closed spec fn view(&self) -> EigenDaGrpcClientView {
        EigenDaGrpcClientView {
            proto_path: self.proto_path@,
            disperser_path: self.disperser_path@,
            server_address: self.server_address@,
            security_params: self.security_params,
        }
    }
}

impl EigenDaGrpcClient {
    /// A client that sends v1 payloads.
    pub fn new(proto_path: String, disperser_path: String, server_address: String) -> (r: Self)
        ensures
            r@ == (EigenDaGrpcClientView {
                proto_path: proto_path@,
                disperser_path: disperser_path@,
                server_address: server_address@,
                security_params: None,
            }),
    {
        EigenDaGrpcClient { proto_path, disperser_path, server_address, security_params: None }
    }

    pub fn builder() -> (r: EigenDaGrpcClientBuilder)
        ensures
            r@ == (EigenDaGrpcClientBuilderView {
                proto_path: None,
                disperser_path: None,
                server_address: None,
                security_params: None,
            }),
    {
        EigenDaGrpcClientBuilder {
            proto_path: None,
            disperser_path: None,
            server_address: None,
            security_params: None,
        }
    }

    /// Points the client at another server address than [`DEFAULT_EIGENDA_SERVER_ADDRESS`].
    pub fn update_server_address(&mut self, address: String)
        ensures
            final(self)@ == (EigenDaGrpcClientView { server_address: address@, ..old(self)@ }),
    {
        self.server_address = address;
    }

    pub fn proto_path(&self) -> (r: &String)
        ensures
            r@ == self@.proto_path,
    {
        &self.proto_path
    }

    pub fn disperser_path(&self) -> (r: &String)
        ensures
            r@ == self@.disperser_path,
    {
        &self.disperser_path
    }

    pub fn server_address(&self) -> (r: &String)
        ensures
            r@ == self@.server_address,
    {
        &self.server_address
    }

    pub fn security_params(&self) -> (r: Option<SecurityParams>)
        ensures
            r == self@.security_params,
    {
        self.security_params
    }

    /// The payload of a dispersal of encoded data, in the shape the client is set up for.
    pub fn get_payload(&self, encoded_data: String) -> (r: EigenDaBlobPayload)
        ensures
            r@ == (EigenDaBlobPayloadView {
                data: encoded_data@,
                security_params: self@.security_params,
            }),
    {
        match self.security_params {
            Some(p) => EigenDaBlobPayload::with_security_params(encoded_data, p),
            None => EigenDaBlobPayload::new(encoded_data),
        }
    }

    fn call(&self, method: &str, data: String) -> (r: GrpcCall)
        ensures
            r.import_path@ == self@.proto_path,
            r.proto@ == self@.disperser_path,
            r.server_address@ == self@.server_address,
            r.method@ == method@,
            r.data@ == data@,
    {
        GrpcCall {
            import_path: self.proto_path.clone(),
            proto: self.disperser_path.clone(),
            data,
            server_address: self.server_address.clone(),
            method: method.to_owned(),
        }
    }

    /// The call that disperses already encoded data.
    pub fn disperse_blob(&self, encoded_data: String) -> (r: GrpcCall)
        ensures
            r.method@ == DISPERSE_BLOB@,
            r.data@ == payload_wire(
                EigenDaBlobPayloadView { data: encoded_data@, security_params: self@.security_params },
            ),
            r.import_path@ == self@.proto_path,
            r.proto@ == self@.disperser_path,
            r.server_address@ == self@.server_address,
    {
        let payload = self.get_payload(encoded_data);
        self.call(DISPERSE_BLOB, payload.to_wire())
    }

    /// The call that asks for the status of a dispersal request.
    pub fn get_blob_status(&self, request_id: &str) -> (r: GrpcCall)
        ensures
            r.method@ == GET_BLOB_STATUS@,
            r.data@ == status_request_wire(request_id@),
            r.import_path@ == self@.proto_path,
            r.proto@ == self@.disperser_path,
            r.server_address@ == self@.server_address,
    {
        let mut data = String::from_str("{\"request_id\":");
        let quoted = quote_json(request_id);
        data.append(quoted.as_str());
        data.append("}");
        assert(data@ =~= status_request_wire(request_id@));
        self.call(GET_BLOB_STATUS, data)
    }

    /// The call that retrieves the blob at a batch header hash and blob index.
    pub fn retrieve_blob(&self, batch_header_hash: &BatchHeaderHash, blob_index: u128) -> (r:
        GrpcCall)
        ensures
            r.method@ == RETRIEVE_BLOB@,
            r.data@ == retrieve_request_wire(batch_header_hash@, blob_index as nat),
            r.import_path@ == self@.proto_path,
            r.proto@ == self@.disperser_path,
            r.server_address@ == self@.server_address,
    {
        let mut data = String::from_str("{\"batch_header_hash\":");
        let hash = batch_header_hash.to_string();
        let quoted_hash = quote_json(hash.as_str());
        data.append(quoted_hash.as_str());
        data.append(",\"blob_index\":");
        let mut index = String::new();
        push_decimal(&mut index, blob_index);
        assert(index@ =~= decimal(blob_index as nat));
        let quoted_index = quote_json(index.as_str());
        data.append(quoted_index.as_str());
        data.append("}");
        assert(data@ =~= retrieve_request_wire(batch_header_hash@, blob_index as nat));
        self.call(RETRIEVE_BLOB, data)
    }
}

/// Settles a transport report: the standard output of a call that succeeded, or its error
/// output, verbatim, as a transport error.
pub fn transport_outcome(output: GrpcOutput) -> (r: Result<String, ClientError>)
    ensures
        r == if output.success {
            Ok::<String, ClientError>(output.stdout)
        } else {
            Err::<String, ClientError>(ClientError::Transport(output.stderr))
        },
{
    if output.success {
        Ok(output.stdout)
    } else {
        Err(ClientError::Transport(output.stderr))
    }
}

/// The JSON document of a status reply, with escaped line breaks and runs of whitespace made
/// single spaces; `None` when the reply holds no `{`.
pub fn status_document(reply: &str) -> (r: Option<String>)
    ensures
        r matches Some(d) ==> status_document_of(reply@) == Some(d@),
        r is None ==> status_document_of(reply@) is None,
{
    match replace_all_matches(REPLY_NOISE_PATTERN, reply, " ") {
        Some(cleaned) => json_document(cleaned.as_str()),
        None => json_document(reply),
    }
}

/// Ends a dispersal: an accepted response is cached under its request id; the outcome is
/// handed back as it came.
pub fn finish_dispersal(cache: &mut ResponseCache, outcome: Result<BlobResponse, ClientError>) -> (r:
    Result<BlobResponse, ClientError>)
    ensures
        r == outcome,
        final(cache)@.capacity == old(cache)@.capacity,
        final(cache)@.entries == match outcome {
            Ok(resp) => if dispersal_accepted(resp@.result) {
                bounded(upserted(old(cache)@.entries, resp), old(cache)@.capacity)
            } else {
                old(cache)@.entries
            },
            Err(_) => old(cache)@.entries,
        },
{
    if let Ok(resp) = &outcome {
        match resp.result() {
            BlobResult::Processing | BlobResult::Confirmed => cache.cache(resp),
            _ => {},
        }
    }
    outcome
}

pub struct EigenDaGrpcClientBuilderView {
    pub proto_path: Option<Seq<char>>,
    pub disperser_path: Option<Seq<char>>,
    pub server_address: Option<Seq<char>>,
    pub security_params: Option<SecurityParams>,
}

/// Collects a client's settings; `build` refuses a client with a required one missing.
#[derive(Clone, Debug, PartialEq, Eq)]
pub struct EigenDaGrpcClientBuilder {
    proto_path: Option<String>,
    disperser_path: Option<String>,
    server_address: Option<String>,
    security_params: Option<SecurityParams>,
}

pub open spec fn opt_view(o: Option<String>) -> Option<Seq<char>> {
    match o {
        Some(s) => Some(s@),
        None => None,
    }
}

impl View for EigenDaGrpcClientBuilder {
    type V = EigenDaGrpcClientBuilderView;

    closed spec fn view(&self) -> EigenDaGrpcClientBuilderView {
        EigenDaGrpcClientBuilderView {
            proto_path: opt_view(self.proto_path),
            disperser_path: opt_view(self.disperser_path),
            server_address: opt_view(self.server_address),
            security_params: self.security_params,
        }
    }
}

impl EigenDaGrpcClientBuilder {
    pub fn proto_path(self, value: String) -> (r: Self)
        ensures
            r@ == (EigenDaGrpcClientBuilderView { proto_path: Some(value@), ..self@ }),
    {
        EigenDaGrpcClientBuilder { proto_path: Some(value), ..self }
    }

    pub fn disperser_path(self, value: String) -> (r: Self)
        ensures
            r@ == (EigenDaGrpcClientBuilderView { disperser_path: Some(value@), ..self@ }),
    {
        EigenDaGrpcClientBuilder { disperser_path: Some(value), ..self }
    }

    pub fn server_address(self, value: String) -> (r: Self)
        ensures
            r@ == (EigenDaGrpcClientBuilderView { server_address: Some(value@), ..self@ }),
    {
        EigenDaGrpcClientBuilder { server_address: Some(value), ..self }
    }

    /// Makes the client send v2 payloads with these parameters.
    pub fn security_params(self, value: SecurityParams) -> (r: Self)
        ensures
            r@ == (EigenDaGrpcClientBuilderView { security_params: Some(value), ..self@ }),
    {
        EigenDaGrpcClientBuilder { security_params: Some(value), ..self }
    }

    /// The client; a configuration error naming the first missing setting among the proto
    /// path, the disperser path and the server address.
    pub fn build(self) -> (r: Result<EigenDaGrpcClient, ClientError>)
        ensures
            r is Ok <==> self@.proto_path is Some && self@.disperser_path is Some
                && self@.server_address is Some,
            r matches Ok(c) ==> c@ == (EigenDaGrpcClientView {
                proto_path: self@.proto_path->Some_0,
                disperser_path: self@.disperser_path->Some_0,
                server_address: self@.server_address->Some_0,
                security_params: self@.security_params,
            }),
            r matches Err(e) ==> (e matches ClientError::Configuration(name) && name@ == if self@.proto_path is None {
                "proto_path"@
            } else if self@.disperser_path is None {
                "disperser_path"@
            } else {
                "server_address"@
            }),
    {
        match (self.proto_path, self.disperser_path, self.server_address) {
            (Some(proto_path), Some(disperser_path), Some(server_address)) => Ok(
                EigenDaGrpcClient {
                    proto_path,
                    disperser_path,
                    server_address,
                    security_params: self.security_params,
                },
            ),
            (None, _, _) => Err(ClientError::Configuration(String::from_str("proto_path"))),
            (_, None, _) => Err(ClientError::Configuration(String::from_str("disperser_path"))),
            _ => Err(ClientError::Configuration(String::from_str("server_address"))),
        }
    }
}

} // verus!
