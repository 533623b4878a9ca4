use vstd::prelude::*;
use vstd::string::*;
use crate::error::{DecodeError, DecodeFailure, Fragment, FragmentModel, SapiError, SapiFailure, field_failure};
use crate::json::{Json, JsonValue, json_of_text, member, parse_json};
use crate::model::{
    ApplicationData, InstanceData, InstanceModel, Record, ServiceData, ServiceModel, ZoneConfig, ZoneConfigModel,
    decode_list, list_decoded, models,
};

verus! {

/// The HTTP methods the service is called with.
#[derive(Clone, Debug, PartialEq)]
pub enum Method {
    Get,
    Post,
    Delete,
}

/// One HTTP request to the service, ready for a transport to send.
#[derive(Debug, PartialEq)]
pub struct Request {
    pub method: Method,
    pub url: String,
    pub headers: Vec<(String, String)>,
    pub body: Option<JsonValue>,
}

/// The headers that every request carries.
pub open spec fn json_headers() -> Seq<(Seq<char>, Seq<char>)> {
    seq![("Content-Type"@, "application/json"@), ("Accept"@, "application/json"@)]
}

pub open spec fn headers_view(h: Seq<(String, String)>) -> Seq<(Seq<char>, Seq<char>)> {
    h.map_values(|p: (String, String)| (p.0@, p.1@))
}

fn default_headers() -> (r: Vec<(String, String)>)
    ensures
        headers_view(r@) == json_headers(),
{
    let mut h: Vec<(String, String)> = Vec::new();
    h.push(("Content-Type".to_owned(), "application/json".to_owned()));
    h.push(("Accept".to_owned(), "application/json".to_owned()));
    assert(headers_view(h@) =~= json_headers());
    h
}

/// The client of one Service API: where it lives, and how long a request may take.
#[derive(Clone, Debug, PartialEq)]
pub struct SAPI {
    sapi_base_url: String,
    request_timeout: u64,
}

impl SAPI {
    pub closed spec fn base_url_spec(&self) -> Seq<char> {
        self.sapi_base_url@
    }

    pub closed spec fn timeout_spec(&self) -> u64 {
        self.request_timeout
    }

    /// A request to send to the service, with the JSON headers.
    pub open spec fn is_request(&self, r: Request, method: Method, path: Seq<char>, body: Option<Json>) -> bool {
        &&& r.method == method
        &&& r.url@ == self.base_url_spec() + path
        &&& headers_view(r.headers@) == json_headers()
        &&& match (r.body, body) {
            (None, None) => true,
            (Some(b), Some(j)) => b@ == j,
            _ => false,
        }
    }

    pub fn new(sapi_base_url: &str, request_timeout: u64) -> (r: SAPI)
        ensures
            r.base_url_spec() == sapi_base_url@,
            r.timeout_spec() == request_timeout,
    {
        SAPI { sapi_base_url: sapi_base_url.to_owned(), request_timeout }
    }

    pub fn base_url(&self) -> (r: &str)
        ensures
            r@ == self.base_url_spec(),
    {
        self.sapi_base_url.as_str()
    }

    /// The timeout of every request, in seconds.
    pub fn request_timeout(&self) -> (r: u64)
        ensures
            r == self.timeout_spec(),
    {
        self.request_timeout
    }

    fn url(&self, path: &str, id: &str) -> (r: String)
        ensures
            r@ == self.base_url_spec() + path@ + id@,
    {
        let mut u = self.sapi_base_url.clone();
        u.append(path);
        u.append(id);
        u
    }

    fn request(&self, method: Method, path: &str, id: &str, body: Option<JsonValue>) -> (r: Request)
        ensures
            r.method == method,
            r.url@ == self.base_url_spec() + path@ + id@,
            headers_view(r.headers@) == json_headers(),
            r.body == body,
    {
        Request { method, url: self.url(path, id), headers: default_headers(), body }
    }

    /// `GET {base}/configs/{uuid}`: the configuration of one zone.
    pub fn zone_config_request(&self, uuid: &str) -> (r: Request)
        ensures
            self.is_request(r, Method::Get, "/configs/"@ + uuid@, None),
    {
        let r = self.request(Method::Get, "/configs/", uuid, None);
        assert(r.url@ =~= self.base_url_spec() + ("/configs/"@ + uuid@));
        r
    }

    /// `GET {base}/instances/{uuid}`: one instance.
    pub fn instance_request(&self, inst_uuid: &str) -> (r: Request)
        ensures
            self.is_request(r, Method::Get, "/instances/"@ + inst_uuid@, None),
    {
        let r = self.request(Method::Get, "/instances/", inst_uuid, None);
        assert(r.url@ =~= self.base_url_spec() + ("/instances/"@ + inst_uuid@));
        r
    }

    /// `GET {base}/instances`: every instance, in the order the service keeps.
    pub fn instances_request(&self) -> (r: Request)
        ensures
            self.is_request(r, Method::Get, "/instances"@, None),
    {
        let r = self.request(Method::Get, "/instances", "", None);
        proof {
            reveal_strlit("");
        }
        assert(r.url@ =~= self.base_url_spec() + "/instances"@);
        r
    }

    /// `GET {base}/instances?service_uuid={uuid}`: the instances of one service,
    /// filtered by the service itself.
    pub fn service_instances_request(&self, svc_uuid: &str) -> (r: Request)
        ensures
            self.is_request(r, Method::Get, "/instances?service_uuid="@ + svc_uuid@, None),
    {
        let r = self.request(Method::Get, "/instances?service_uuid=", svc_uuid, None);
        assert(r.url@ =~= self.base_url_spec() + ("/instances?service_uuid="@ + svc_uuid@));
        r
    }

    /// `GET {base}/services`: every service.
    pub fn services_request(&self) -> (r: Request)
        ensures
            self.is_request(r, Method::Get, "/services"@, None),
    {
        let r = self.request(Method::Get, "/services", "", None);
        proof {
            reveal_strlit("");
        }
        assert(r.url@ =~= self.base_url_spec() + "/services"@);
        r
    }

    /// `GET {base}/service/{uuid}`: one service. The path is singular, unlike
    /// the others. That is the route as observed in use, kept as it is; whether
    /// the service really answers there is unconfirmed, and it may be a defect.
    pub fn service_request(&self, uuid: &str) -> (r: Request)
        ensures
            self.is_request(r, Method::Get, "/service/"@ + uuid@, None),
    {
        let r = self.request(Method::Get, "/service/", uuid, None);
        assert(r.url@ =~= self.base_url_spec() + ("/service/"@ + uuid@));
        r
    }

    /// `GET {base}/applications`: every application.
    pub fn applications_request(&self) -> (r: Request)
        ensures
            self.is_request(r, Method::Get, "/applications"@, None),
    {
        let r = self.request(Method::Get, "/applications", "", None);
        proof {
            reveal_strlit("");
        }
        assert(r.url@ =~= self.base_url_spec() + "/applications"@);
        r
    }

    /// `POST {base}/services` with `{"name": .., "application_uuid": ..}`.
    pub fn create_service_request(&self, name: &str, application_uuid: &str) -> (r: Request)
        ensures
            self.is_request(r, Method::Post, "/services"@, Some(create_service_body(name@, application_uuid@))),
    {
        let mut v: Vec<(String, JsonValue)> = Vec::new();
        v.push(("name".to_owned(), JsonValue::Str(name.to_owned())));
        v.push(("application_uuid".to_owned(), JsonValue::Str(application_uuid.to_owned())));
        let body = JsonValue::Object(v);
        proof {
            reveal_with_fuel(JsonValue::view, 2);
        }
        assert(body@->Object_0 =~= create_service_body(name@, application_uuid@)->Object_0);
        let r = self.request(Method::Post, "/services", "", Some(body));
        proof {
            reveal_strlit("");
        }
        assert(r.url@ =~= self.base_url_spec() + "/services"@);
        r
    }

    /// `POST {base}/services/{uuid}` with the caller's body.
    pub fn update_service_request(&self, service_uuid: &str, body: JsonValue) -> (r: Request)
        ensures
            self.is_request(r, Method::Post, "/services/"@ + service_uuid@, Some(body@)),
    {
        let r = self.request(Method::Post, "/services/", service_uuid, Some(body));
        assert(r.url@ =~= self.base_url_spec() + ("/services/"@ + service_uuid@));
        r
    }

    /// `DELETE {base}/services/{uuid}`.
    pub fn delete_service_request(&self, service_uuid: &str) -> (r: Request)
        ensures
            self.is_request(r, Method::Delete, "/services/"@ + service_uuid@, None),
    {
        let r = self.request(Method::Delete, "/services/", service_uuid, None);
        assert(r.url@ =~= self.base_url_spec() + ("/services/"@ + service_uuid@));
        r
    }
}

/// The error that a status alone decides: none for 2xx.
pub open spec fn status_failure(status: u16, body: Seq<char>) -> Option<SapiFailure> {
    if status == 404 {
        Some(SapiFailure::NotFound { body })
    } else if 200 <= status <= 299 {
        None
    } else {
        Some(SapiFailure::HttpStatus { status, body })
    }
}

/// The failure of a body that is not JSON at all.
pub open spec fn malformed(body: Seq<char>) -> DecodeFailure {
    DecodeFailure { path: Seq::empty(), fragment: FragmentModel::Text(body) }
}

/// What a response with this status and body decodes to, as a record of type `T`.
pub open spec fn response_decoded<T: Record>(status: u16, body: Seq<char>) -> Result<T::Model, SapiFailure> {
    match status_failure(status, body) {
        Some(f) => Err(f),
        None => match json_of_text(body) {
            None => Err(SapiFailure::Decode(malformed(body))),
            Some(j) => match T::decoded(j) {
                Ok(m) => Ok(m),
                Err(e) => Err(SapiFailure::Decode(e)),
            },
        },
    }
}

/// What a response with this status and body decodes to, as a list of `T`.
pub open spec fn response_list_decoded<T: Record>(status: u16, body: Seq<char>) -> Result<Seq<T::Model>, SapiFailure> {
    match status_failure(status, body) {
        Some(f) => Err(f),
        None => match json_of_text(body) {
            None => Err(SapiFailure::Decode(malformed(body))),
            Some(j) => match list_decoded::<T>(j) {
                Ok(m) => Ok(m),
                Err(e) => Err(SapiFailure::Decode(e)),
            },
        },
    }
}

/// The error that a response's status means, for the calls whose response the
/// caller reads itself.
pub fn check_status(status: u16, body: &str) -> (r: Result<(), SapiError>)
    ensures
        r is Ok <==> status_failure(status, body@) is None,
        r matches Err(e) ==> status_failure(status, body@) == Some(e@),
{
    if status == 404 {
        Err(SapiError::NotFound { body: body.to_owned() })
    } else if 200 <= status && status <= 299 {
        Ok(())
    } else {
        Err(SapiError::HttpStatus { status, body: body.to_owned() })
    }
}

fn malformed_error(body: &str) -> (r: DecodeError)
    ensures
        r@ == malformed(body@),
{
    let r = DecodeError { path: Vec::new(), fragment: Fragment::Text(body.to_owned()) };
    assert(r@.path =~= Seq::empty());
    r
}

/// Reads a response that holds one record.
pub fn read_record<T: Record>(status: u16, body: &str) -> (r: Result<T, SapiError>)
    ensures
        match r {
            Ok(x) => response_decoded::<T>(status, body@) == Ok::<T::Model, SapiFailure>(x.model()),
            Err(e) => response_decoded::<T>(status, body@) == Err::<T::Model, SapiFailure>(e@),
        },
{
    match check_status(status, body) {
        Err(e) => Err(e),
        Ok(()) => match parse_json(body) {
            None => Err(SapiError::Decode(malformed_error(body))),
            Some(j) => match T::decode(&j) {
                Ok(x) => Ok(x),
                Err(e) => Err(SapiError::Decode(e)),
            },
        },
    }
}

/// Reads a response that holds a list of records, in the order given.
pub fn read_list<T: Record>(status: u16, body: &str) -> (r: Result<Vec<T>, SapiError>)
    ensures
        match r {
            Ok(v) => response_list_decoded::<T>(status, body@) == Ok::<Seq<T::Model>, SapiFailure>(models(v@)),
            Err(e) => response_list_decoded::<T>(status, body@) == Err::<Seq<T::Model>, SapiFailure>(e@),
        },
{
    match check_status(status, body) {
        Err(e) => Err(e),
        Ok(()) => match parse_json(body) {
            None => Err(SapiError::Decode(malformed_error(body))),
            Some(j) => match decode_list::<T>(&j) {
                Ok(v) => Ok(v),
                Err(e) => Err(SapiError::Decode(e)),
            },
        },
    }
}

/// `i` is the first position of a service named `name`.
pub open spec fn first_service_named(v: Seq<ServiceData>, name: Seq<char>, i: int) -> bool {
    &&& 0 <= i < v.len()
    &&& v[i].name@ == name
    &&& forall|k: int| 0 <= k < i ==> (#[trigger] v[k]).name@ != name
}

/// The first service of the list whose name is exactly `name`, or nothing.
pub fn find_service_by_name(services: Vec<ServiceData>, name: &str) -> (r: Option<ServiceData>)
    ensures
        r is None <==> forall|i: int| 0 <= i < services.len() ==> (#[trigger] services[i]).name@ != name@,
        r matches Some(s) ==> exists|i: int| first_service_named(services@, name@, i) && services[i] == s,
{
    let ghost all = services@;
    let mut list = services;
    let key = name.to_owned();
    let mut i: usize = 0;
    while i < list.len()
        invariant
            list@ == all,
            all == services@,
            key@ == name@,
            i <= list.len(),
            forall|k: int| 0 <= k < i ==> (#[trigger] all[k]).name@ != name@,
        decreases list.len() - i,
    {
        if list[i].name == key {
            let s = list.remove(i);
            assert(all[i as int].name@ == name@);
            assert(first_service_named(all, name@, i as int));
            return Some(s);
        }
        i = i + 1;
    }
    None
}

/// `i` is the first position of an application named `name`.
pub open spec fn first_application_named(v: Seq<ApplicationData>, name: Seq<char>, i: int) -> bool {
    &&& 0 <= i < v.len()
    &&& v[i].name@ == name
    &&& forall|k: int| 0 <= k < i ==> (#[trigger] v[k]).name@ != name
}

/// The first application of the list whose name is exactly `name`, or nothing.
pub fn find_application_by_name(applications: Vec<ApplicationData>, name: &str) -> (r: Option<ApplicationData>)
    ensures
        r is None <==> forall|i: int| 0 <= i < applications.len() ==> (#[trigger] applications[i]).name@ != name@,
        r matches Some(a) ==> exists|i: int| first_application_named(applications@, name@, i) && applications[i] == a,
{
    let ghost all = applications@;
    let mut list = applications;
    let key = name.to_owned();
    let mut i: usize = 0;
    while i < list.len()
        invariant
            list@ == all,
            all == applications@,
            key@ == name@,
            i <= list.len(),
            forall|k: int| 0 <= k < i ==> (#[trigger] all[k]).name@ != name@,
        decreases list.len() - i,
    {
        if list[i].name == key {
            let a = list.remove(i);
            assert(all[i as int].name@ == name@);
            assert(first_application_named(all, name@, i as int));
            return Some(a);
        }
        i = i + 1;
    }
    None
}

/// Status 404 means the zone does not exist, whatever the body holds: it is
/// never read, so an empty or broken body gives no decode error.
pub proof fn zone_config_not_found(body: Seq<char>)
    ensures
        response_decoded::<ZoneConfig>(404, body) == Err::<ZoneConfigModel, SapiFailure>(SapiFailure::NotFound { body }),
{
}

/// A 200 response whose JSON object lacks `uuid` fails to decode as an
/// instance, and the failure names the `uuid` field.
pub proof fn instance_without_uuid(body: Seq<char>, j: Json)
    requires
        json_of_text(body) == Some(j),
        j is Object,
        member(j, "uuid"@) is None,
    ensures
        response_decoded::<InstanceData>(200, body) == Err::<InstanceModel, SapiFailure>(
            SapiFailure::Decode(field_failure("uuid"@, FragmentModel::Missing)),
        ),
{
}

/// A 200 response whose JSON object lacks `uuid` fails to decode as a
/// service, and the failure names the `uuid` field.
pub proof fn service_without_uuid(body: Seq<char>, j: Json)
    requires
        json_of_text(body) == Some(j),
        j is Object,
        member(j, "uuid"@) is None,
    ensures
        response_decoded::<ServiceData>(200, body) == Err::<ServiceModel, SapiFailure>(
            SapiFailure::Decode(field_failure("uuid"@, FragmentModel::Missing)),
        ),
{
}

/// The body that creates a service.
pub open spec fn create_service_body(name: Seq<char>, application_uuid: Seq<char>) -> Json {
    Json::Object(seq![("name"@, Json::Str(name)), ("application_uuid"@, Json::Str(application_uuid))])
}

} // verus!
