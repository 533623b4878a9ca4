use vstd::prelude::*;
use vstd::string::*;
use crate::error::{DecodeError, DecodeFailure, Fragment, FragmentModel, PathStep, Step, field_failure, nested};
use crate::fields::{bool_field_or_false, read_bool_or_false, read_optional, read_str, read_str_or_empty, read_value, str_field, str_field_or_empty, value_field, optional_field, wrong_kind, wrong_kind_error};
use crate::json::{Json, JsonValue, lemma_lookup_first, lookup, member};

verus! {

/// A record that the service returns as a JSON object.
pub trait Record: Sized {
    type Model;

    spec fn model(&self) -> Self::Model;

    /// What decoding `j` gives: the model of the record, or the first failure.
    spec fn decoded(j: Json) -> Result<Self::Model, DecodeFailure>;

    fn decode(j: &JsonValue) -> (r: Result<Self, DecodeError>)
        ensures
            match r {
                Ok(x) => Self::decoded(j@) == Ok::<Self::Model, DecodeFailure>(x.model()),
                Err(e) => Self::decoded(j@) == Err::<Self::Model, DecodeFailure>(e@),
            },
    ;
}

/// A configuration template that is rendered into a zone.
#[derive(Clone, Debug, PartialEq)]
pub struct SapiManifests {
    pub uuid: String,
    pub name: String,
    pub path: String,
    pub template: String,
    pub version: String,
    pub master: bool,
    pub post_cmd: String,
}

/// The model of a manifest.
pub struct ManifestModel {
    pub uuid: Seq<char>,
    pub name: Seq<char>,
    pub path: Seq<char>,
    pub template: Seq<char>,
    pub version: Seq<char>,
    pub master: bool,
    pub post_cmd: Seq<char>,
}

pub open spec fn manifest_decoded(j: Json) -> Result<ManifestModel, DecodeFailure> {
    if !(j is Object) {
        Err(wrong_kind(j))
    } else if str_field(j, "uuid"@) is Err {
        Err(str_field(j, "uuid"@)->Err_0)
    } else if str_field(j, "name"@) is Err {
        Err(str_field(j, "name"@)->Err_0)
    } else if str_field(j, "path"@) is Err {
        Err(str_field(j, "path"@)->Err_0)
    } else if str_field_or_empty(j, "template"@) is Err {
        Err(str_field_or_empty(j, "template"@)->Err_0)
    } else if str_field_or_empty(j, "version"@) is Err {
        Err(str_field_or_empty(j, "version"@)->Err_0)
    } else if bool_field_or_false(j, "master"@) is Err {
        Err(bool_field_or_false(j, "master"@)->Err_0)
    } else if str_field_or_empty(j, "post_cmd"@) is Err {
        Err(str_field_or_empty(j, "post_cmd"@)->Err_0)
    } else {
        Ok(ManifestModel {
            uuid: str_field(j, "uuid"@)->Ok_0,
            name: str_field(j, "name"@)->Ok_0,
            path: str_field(j, "path"@)->Ok_0,
            template: str_field_or_empty(j, "template"@)->Ok_0,
            version: str_field_or_empty(j, "version"@)->Ok_0,
            master: bool_field_or_false(j, "master"@)->Ok_0,
            post_cmd: str_field_or_empty(j, "post_cmd"@)->Ok_0,
        })
    }
}

impl Record for SapiManifests {
    type Model = ManifestModel;

    open spec fn model(&self) -> ManifestModel {
        ManifestModel {
            uuid: self.uuid@,
            name: self.name@,
            path: self.path@,
            template: self.template@,
            version: self.version@,
            master: self.master,
            post_cmd: self.post_cmd@,
        }
    }

    open spec fn decoded(j: Json) -> Result<ManifestModel, DecodeFailure> {
        manifest_decoded(j)
    }

    fn decode(j: &JsonValue) -> (r: Result<SapiManifests, DecodeError>) {
        if !j.is_object() {
            return Err(wrong_kind_error(j));
        }
        let uuid = match read_str(j, "uuid") { Ok(s) => s, Err(e) => return Err(e) };
        let name = match read_str(j, "name") { Ok(s) => s, Err(e) => return Err(e) };
        let path = match read_str(j, "path") { Ok(s) => s, Err(e) => return Err(e) };
        let template = match read_str_or_empty(j, "template") { Ok(s) => s, Err(e) => return Err(e) };
        let version = match read_str_or_empty(j, "version") { Ok(s) => s, Err(e) => return Err(e) };
        let master = match read_bool_or_false(j, "master") { Ok(b) => b, Err(e) => return Err(e) };
        let post_cmd = match read_str_or_empty(j, "post_cmd") { Ok(s) => s, Err(e) => return Err(e) };
        Ok(SapiManifests { uuid, name, path, template, version, master, post_cmd })
    }
}

/// The first `n` items of a list, decoded in order; the first failure stops it.
pub open spec fn list_prefix<T: Record>(items: Seq<Json>, n: nat) -> Result<Seq<T::Model>, DecodeFailure>
    decreases n,
{
    if n == 0 {
        Ok(Seq::empty())
    } else {
        match list_prefix::<T>(items, (n - 1) as nat) {
            Err(e) => Err(e),
            Ok(ms) => match T::decoded(items[n - 1]) {
                Ok(m) => Ok(ms.push(m)),
                Err(e) => Err(nested(e, Step::Index(n - 1))),
            },
        }
    }
}

/// Once a prefix has failed, every longer prefix fails the same way.
proof fn lemma_prefix_failure_stays<T: Record>(items: Seq<Json>, n: nat, m: nat)
    requires
        n <= m,
        list_prefix::<T>(items, n) is Err,
    ensures
        list_prefix::<T>(items, m) == list_prefix::<T>(items, n),
    decreases m - n,
{
    if n < m {
        lemma_prefix_failure_stays::<T>(items, n, (m - 1) as nat);
    }
}

/// What decoding a JSON array of records gives.
pub open spec fn list_decoded<T: Record>(j: Json) -> Result<Seq<T::Model>, DecodeFailure> {
    match j {
        Json::Array(items) => list_prefix::<T>(items, items.len()),
        _ => Err(wrong_kind(j)),
    }
}

pub open spec fn models<T: Record>(v: Seq<T>) -> Seq<T::Model> {
    v.map_values(|x: T| x.model())
}

/// Decodes a JSON array of records, keeping the order of the array.
pub fn decode_list<T: Record>(j: &JsonValue) -> (r: Result<Vec<T>, DecodeError>)
    ensures
        match r {
            Ok(v) => list_decoded::<T>(j@) == Ok::<Seq<T::Model>, DecodeFailure>(models(v@)),
            Err(e) => list_decoded::<T>(j@) == Err::<Seq<T::Model>, DecodeFailure>(e@),
        },
{
    match j {
        JsonValue::Array(items) => {
            let ghost all = j@->Array_0;
            let mut out: Vec<T> = Vec::new();
            let mut i: usize = 0;
            assert(models(out@) =~= Seq::empty());
            while i < items.len()
                invariant
                    *j == JsonValue::Array(*items),
                    all == j@->Array_0,
                    all.len() == items.len(),
                    i <= items.len(),
                    list_prefix::<T>(all, i as nat) == Ok::<Seq<T::Model>, DecodeFailure>(models(out@)),
                decreases items.len() - i,
            {
                assert(all[i as int] == items[i as int]@);
                match T::decode(&items[i]) {
                    Ok(x) => {
                        let ghost before = out@;
                        out.push(x);
                        assert(models(out@) =~= models(before).push(x.model()));
                    },
                    Err(e) => {
                        proof {
                            lemma_prefix_failure_stays::<T>(all, (i + 1) as nat, all.len());
                        }
                        return Err(e.within(PathStep::Index(i)));
                    },
                }
                i = i + 1;
            }
            Ok(out)
        },
        _ => Err(wrong_kind_error(j)),
    }
}

/// The rendered configuration of one zone.
#[derive(Debug, PartialEq)]
pub struct ZoneConfig {
    pub manifests: Vec<SapiManifests>,
    pub metadata: JsonValue,
}

/// The model of a zone configuration.
pub struct ZoneConfigModel {
    pub manifests: Seq<ManifestModel>,
    pub metadata: Json,
}

pub open spec fn zone_config_decoded(j: Json) -> Result<ZoneConfigModel, DecodeFailure> {
    if !(j is Object) {
        Err(wrong_kind(j))
    } else {
        match member(j, "manifests"@) {
            None => Err(field_failure("manifests"@, FragmentModel::Missing)),
            Some(m) => match list_decoded::<SapiManifests>(m) {
                Err(e) => Err(nested(e, Step::Key("manifests"@))),
                Ok(ms) => match value_field(j, "metadata"@) {
                    Err(e) => Err(e),
                    Ok(md) => Ok(ZoneConfigModel { manifests: ms, metadata: md }),
                },
            },
        }
    }
}

impl Record for ZoneConfig {
    type Model = ZoneConfigModel;

    open spec fn model(&self) -> ZoneConfigModel {
        ZoneConfigModel { manifests: models(self.manifests@), metadata: self.metadata@ }
    }

    open spec fn decoded(j: Json) -> Result<ZoneConfigModel, DecodeFailure> {
        zone_config_decoded(j)
    }

    fn decode(j: &JsonValue) -> (r: Result<ZoneConfig, DecodeError>) {
        if !j.is_object() {
            return Err(wrong_kind_error(j));
        }
        let manifests = match j.get("manifests") {
            None => return Err(DecodeError::at_field("manifests", Fragment::Missing)),
            Some(m) => match decode_list::<SapiManifests>(m) {
                Ok(v) => v,
                Err(e) => return Err(e.within(PathStep::Key("manifests".to_owned()))),
            },
        };
        let metadata = match read_value(j, "metadata") { Ok(x) => x, Err(e) => return Err(e) };
        Ok(ZoneConfig { manifests, metadata })
    }
}

/// A service: one kind of zone that an application is made of.
#[derive(Debug, PartialEq)]
pub struct ServiceData {
    pub name: String,
    pub uuid: String,
    pub application_uuid: String,
    pub params: JsonValue,
    pub metadata: Option<JsonValue>,
    pub master: bool,
}

/// The model of a service.
pub struct ServiceModel {
    pub name: Seq<char>,
    pub uuid: Seq<char>,
    pub application_uuid: Seq<char>,
    pub params: Json,
    pub metadata: Option<Json>,
    pub master: bool,
}

pub open spec fn opt_view(o: Option<JsonValue>) -> Option<Json> {
    match o {
        Some(x) => Some(x@),
        None => None,
    }
}

pub open spec fn service_decoded(j: Json) -> Result<ServiceModel, DecodeFailure> {
    if !(j is Object) {
        Err(wrong_kind(j))
    } else if str_field(j, "uuid"@) is Err {
        Err(str_field(j, "uuid"@)->Err_0)
    } else if str_field(j, "name"@) is Err {
        Err(str_field(j, "name"@)->Err_0)
    } else if str_field(j, "application_uuid"@) is Err {
        Err(str_field(j, "application_uuid"@)->Err_0)
    } else if value_field(j, "params"@) is Err {
        Err(value_field(j, "params"@)->Err_0)
    } else if bool_field_or_false(j, "master"@) is Err {
        Err(bool_field_or_false(j, "master"@)->Err_0)
    } else {
        Ok(ServiceModel {
            name: str_field(j, "name"@)->Ok_0,
            uuid: str_field(j, "uuid"@)->Ok_0,
            application_uuid: str_field(j, "application_uuid"@)->Ok_0,
            params: value_field(j, "params"@)->Ok_0,
            metadata: optional_field(j, "metadata"@),
            master: bool_field_or_false(j, "master"@)->Ok_0,
        })
    }
}

impl Record for ServiceData {
    type Model = ServiceModel;

    open spec fn model(&self) -> ServiceModel {
        ServiceModel {
            name: self.name@,
            uuid: self.uuid@,
            application_uuid: self.application_uuid@,
            params: self.params@,
            metadata: opt_view(self.metadata),
            master: self.master,
        }
    }

    open spec fn decoded(j: Json) -> Result<ServiceModel, DecodeFailure> {
        service_decoded(j)
    }

    fn decode(j: &JsonValue) -> (r: Result<ServiceData, DecodeError>) {
        if !j.is_object() {
            return Err(wrong_kind_error(j));
        }
        let uuid = match read_str(j, "uuid") { Ok(s) => s, Err(e) => return Err(e) };
        let name = match read_str(j, "name") { Ok(s) => s, Err(e) => return Err(e) };
        let application_uuid = match read_str(j, "application_uuid") { Ok(s) => s, Err(e) => return Err(e) };
        let params = match read_value(j, "params") { Ok(x) => x, Err(e) => return Err(e) };
        let master = match read_bool_or_false(j, "master") { Ok(b) => b, Err(e) => return Err(e) };
        let metadata = read_optional(j, "metadata");
        Ok(ServiceData { name, uuid, application_uuid, params, metadata, master })
    }
}

/// An instance: one deployed zone of a service.
#[derive(Debug, PartialEq)]
pub struct InstanceData {
    pub uuid: String,
    pub service_uuid: String,
    pub params: Option<JsonValue>,
    pub metadata: Option<JsonValue>,
}

/// The model of an instance.
pub struct InstanceModel {
    pub uuid: Seq<char>,
    pub service_uuid: Seq<char>,
    pub params: Option<Json>,
    pub metadata: Option<Json>,
}

pub open spec fn instance_decoded(j: Json) -> Result<InstanceModel, DecodeFailure> {
    if !(j is Object) {
        Err(wrong_kind(j))
    } else if str_field(j, "uuid"@) is Err {
        Err(str_field(j, "uuid"@)->Err_0)
    } else if str_field(j, "service_uuid"@) is Err {
        Err(str_field(j, "service_uuid"@)->Err_0)
    } else {
        Ok(InstanceModel {
            uuid: str_field(j, "uuid"@)->Ok_0,
            service_uuid: str_field(j, "service_uuid"@)->Ok_0,
            params: optional_field(j, "params"@),
            metadata: optional_field(j, "metadata"@),
        })
    }
}

impl Record for InstanceData {
    type Model = InstanceModel;

    open spec fn model(&self) -> InstanceModel {
        InstanceModel {
            uuid: self.uuid@,
            service_uuid: self.service_uuid@,
            params: opt_view(self.params),
            metadata: opt_view(self.metadata),
        }
    }

    open spec fn decoded(j: Json) -> Result<InstanceModel, DecodeFailure> {
        instance_decoded(j)
    }

    fn decode(j: &JsonValue) -> (r: Result<InstanceData, DecodeError>) {
        if !j.is_object() {
            return Err(wrong_kind_error(j));
        }
        let uuid = match read_str(j, "uuid") { Ok(s) => s, Err(e) => return Err(e) };
        let service_uuid = match read_str(j, "service_uuid") { Ok(s) => s, Err(e) => return Err(e) };
        let params = read_optional(j, "params");
        let metadata = read_optional(j, "metadata");
        Ok(InstanceData { uuid, service_uuid, params, metadata })
    }
}

/// An application: the top of the registry, which services belong to.
#[derive(Debug, PartialEq)]
pub struct ApplicationData {
    pub uuid: String,
    pub name: String,
    pub metadata: JsonValue,
}

/// The model of an application.
pub struct ApplicationModel {
    pub uuid: Seq<char>,
    pub name: Seq<char>,
    pub metadata: Json,
}

pub open spec fn application_decoded(j: Json) -> Result<ApplicationModel, DecodeFailure> {
    if !(j is Object) {
        Err(wrong_kind(j))
    } else if str_field(j, "uuid"@) is Err {
        Err(str_field(j, "uuid"@)->Err_0)
    } else if str_field(j, "name"@) is Err {
        Err(str_field(j, "name"@)->Err_0)
    } else if value_field(j, "metadata"@) is Err {
        Err(value_field(j, "metadata"@)->Err_0)
    } else {
        Ok(ApplicationModel {
            uuid: str_field(j, "uuid"@)->Ok_0,
            name: str_field(j, "name"@)->Ok_0,
            metadata: value_field(j, "metadata"@)->Ok_0,
        })
    }
}

impl Record for ApplicationData {
    type Model = ApplicationModel;

    open spec fn model(&self) -> ApplicationModel {
        ApplicationModel { uuid: self.uuid@, name: self.name@, metadata: self.metadata@ }
    }

    open spec fn decoded(j: Json) -> Result<ApplicationModel, DecodeFailure> {
        application_decoded(j)
    }

    fn decode(j: &JsonValue) -> (r: Result<ApplicationData, DecodeError>) {
        if !j.is_object() {
            return Err(wrong_kind_error(j));
        }
        let uuid = match read_str(j, "uuid") { Ok(s) => s, Err(e) => return Err(e) };
        let name = match read_str(j, "name") { Ok(s) => s, Err(e) => return Err(e) };
        let metadata = match read_value(j, "metadata") { Ok(x) => x, Err(e) => return Err(e) };
        Ok(ApplicationData { uuid, name, metadata })
    }
}

/// The JSON object that a manifest is written as.
pub open spec fn manifest_json(m: ManifestModel) -> Json {
    Json::Object(
        seq![
            ("uuid"@, Json::Str(m.uuid)),
            ("name"@, Json::Str(m.name)),
            ("path"@, Json::Str(m.path)),
            ("template"@, Json::Str(m.template)),
            ("version"@, Json::Str(m.version)),
            ("master"@, Json::Bool(m.master)),
            ("post_cmd"@, Json::Str(m.post_cmd)),
        ],
    )
}

/// The JSON object that a zone configuration is written as.
pub open spec fn zone_config_json(z: ZoneConfigModel) -> Json {
    Json::Object(
        seq![
            ("manifests"@, Json::Array(z.manifests.map_values(|m: ManifestModel| manifest_json(m)))),
            ("metadata"@, z.metadata),
        ],
    )
}

impl SapiManifests {
    pub fn to_json(&self) -> (r: JsonValue)
        ensures
            r@ == manifest_json(self.model()),
    {
        let mut v: Vec<(String, JsonValue)> = Vec::new();
        v.push(("uuid".to_owned(), JsonValue::Str(self.uuid.clone())));
        v.push(("name".to_owned(), JsonValue::Str(self.name.clone())));
        v.push(("path".to_owned(), JsonValue::Str(self.path.clone())));
        v.push(("template".to_owned(), JsonValue::Str(self.template.clone())));
        v.push(("version".to_owned(), JsonValue::Str(self.version.clone())));
        v.push(("master".to_owned(), JsonValue::Bool(self.master)));
        v.push(("post_cmd".to_owned(), JsonValue::Str(self.post_cmd.clone())));
        let r = JsonValue::Object(v);
        proof {
            reveal_with_fuel(JsonValue::view, 2);
        }
        assert(r@->Object_0 =~= manifest_json(self.model())->Object_0);
        r
    }
}

impl ZoneConfig {
    pub fn to_json(&self) -> (r: JsonValue)
        ensures
            r@ == zone_config_json(self.model()),
    {
        let mut items: Vec<JsonValue> = Vec::new();
        let mut i: usize = 0;
        while i < self.manifests.len()
            invariant
                i <= self.manifests.len(),
                items.len() == i,
                forall|k: int| 0 <= k < i ==> (#[trigger] items[k])@ == manifest_json(self.manifests[k].model()),
            decreases self.manifests.len() - i,
        {
            items.push(self.manifests[i].to_json());
            i = i + 1;
        }
        let list = JsonValue::Array(items);
        assert(list@->Array_0 =~= models(self.manifests@).map_values(|m: ManifestModel| manifest_json(m)));
        let mut v: Vec<(String, JsonValue)> = Vec::new();
        v.push(("manifests".to_owned(), list));
        v.push(("metadata".to_owned(), self.metadata.deep_clone()));
        let r = JsonValue::Object(v);
        assert(r@->Object_0 =~= zone_config_json(self.model())->Object_0);
        r
    }
}

/// Decoding a zone configuration and writing it out again keeps its metadata:
/// every key and value, nested ones included.
pub proof fn zone_config_metadata_round_trip(j: Json)
    requires
        zone_config_decoded(j) is Ok,
    ensures
        member(zone_config_json(zone_config_decoded(j)->Ok_0), "metadata"@) == member(j, "metadata"@),
{
    reveal_strlit("manifests");
    reveal_strlit("metadata");
    let z = zone_config_decoded(j)->Ok_0;
    let entries = zone_config_json(z)->Object_0;
    assert("manifests"@.len() != "metadata"@.len());
    assert(entries[0].0 != "metadata"@);
    assert(lookup(entries, "metadata"@) == lookup(entries.drop_first(), "metadata"@));
    assert(entries.drop_first()[0] == ("metadata"@, z.metadata));
    assert(lookup(entries.drop_first(), "metadata"@) == Some(z.metadata));
}

/// A manifest written out as JSON decodes back to itself.
pub proof fn manifest_json_decodes(m: ManifestModel)
    ensures
        manifest_decoded(manifest_json(m)) == Ok::<ManifestModel, DecodeFailure>(m),
{
    reveal_strlit("uuid");
    reveal_strlit("name");
    reveal_strlit("path");
    reveal_strlit("template");
    reveal_strlit("version");
    reveal_strlit("master");
    reveal_strlit("post_cmd");
    let e = manifest_json(m)->Object_0;
    assert forall|i: int, k: int| 0 <= k < i < 7 implies (#[trigger] e[k]).0 != (#[trigger] e[i]).0 by {
        assert(e[k].0.len() != e[i].0.len() || e[k].0[0] != e[i].0[0]);
    }
    lemma_lookup_first(e, "uuid"@, 0);
    lemma_lookup_first(e, "name"@, 1);
    lemma_lookup_first(e, "path"@, 2);
    lemma_lookup_first(e, "template"@, 3);
    lemma_lookup_first(e, "version"@, 4);
    lemma_lookup_first(e, "master"@, 5);
    lemma_lookup_first(e, "post_cmd"@, 6);
}

proof fn manifests_json_decode(ms: Seq<ManifestModel>, n: nat)
    requires
        n <= ms.len(),
    ensures
        list_prefix::<SapiManifests>(ms.map_values(|m: ManifestModel| manifest_json(m)), n)
            == Ok::<Seq<ManifestModel>, DecodeFailure>(ms.subrange(0, n as int)),
    decreases n,
{
    if n > 0 {
        manifests_json_decode(ms, (n - 1) as nat);
        manifest_json_decodes(ms[n - 1]);
        assert(ms.subrange(0, n - 1).push(ms[n - 1]) =~= ms.subrange(0, n as int));
    } else {
        assert(ms.subrange(0, 0) =~= Seq::empty());
    }
}

/// A zone configuration written out as JSON decodes back to itself.
pub proof fn zone_config_json_decodes(z: ZoneConfigModel)
    ensures
        zone_config_decoded(zone_config_json(z)) == Ok::<ZoneConfigModel, DecodeFailure>(z),
{
    reveal_strlit("manifests");
    reveal_strlit("metadata");
    let e = zone_config_json(z)->Object_0;
    assert(e[0].0.len() != e[1].0.len());
    lemma_lookup_first(e, "manifests"@, 0);
    lemma_lookup_first(e, "metadata"@, 1);
    manifests_json_decode(z.manifests, z.manifests.len());
    assert(z.manifests.subrange(0, z.manifests.len() as int) =~= z.manifests);
}

/// A service whose JSON has no `master` member decodes as not the master.
pub proof fn service_master_defaults_to_false(j: Json)
    requires
        member(j, "master"@) is None,
        service_decoded(j) is Ok,
    ensures
        service_decoded(j)->Ok_0.master == false,
{
}

/// A service whose JSON has no `metadata` member decodes with no metadata at
/// all, which is not the same as an empty mapping: a service whose metadata is
/// `{}` keeps that empty mapping.
pub proof fn service_metadata_absent_is_not_empty(j: Json, k: Json)
    requires
        member(j, "metadata"@) is None,
        service_decoded(j) is Ok,
        member(k, "metadata"@) == Some(Json::Object(Seq::empty())),
        service_decoded(k) is Ok,
    ensures
        service_decoded(j)->Ok_0.metadata is None,
        service_decoded(k)->Ok_0.metadata == Some(Json::Object(Seq::empty())),
        service_decoded(j)->Ok_0.metadata != service_decoded(k)->Ok_0.metadata,
{
}

/// Two characters that are equal once ASCII letters are lowered.
pub open spec fn same_ignoring_ascii_case(c: char, t: char) -> bool {
    c == t || ('a' <= t <= 'z' && c as u32 + 32 == t as u32) || ('a' <= c <= 'z' && t as u32 + 32 == c as u32)
}

pub open spec fn eq_ignoring_ascii_case(s: Seq<char>, t: Seq<char>) -> bool {
    s.len() == t.len() && forall|i: int| 0 <= i < s.len() ==> same_ignoring_ascii_case(#[trigger] s[i], t[i])
}

pub fn chars_eq_ignoring_ascii_case(c: char, t: char) -> (r: bool)
    ensures
        r == same_ignoring_ascii_case(c, t),
{
    let cu = c as u32;
    let tu = t as u32;
    c == t || ('a' <= t && t <= 'z' && cu + 32 == tu) || ('a' <= c && c <= 'z' && tu + 32 == cu)
}

pub fn str_eq_ignoring_ascii_case(s: &str, t: &str) -> (r: bool)
    ensures
        r == eq_ignoring_ascii_case(s@, t@),
{
    let n = s.unicode_len();
    if n != t.unicode_len() {
        return false;
    }
    let mut i: usize = 0;
    while i < n
        invariant
            n == s@.len(),
            n == t@.len(),
            i <= n,
            forall|k: int| 0 <= k < i ==> same_ignoring_ascii_case(#[trigger] s@[k], t@[k]),
        decreases n - i,
    {
        if !chars_eq_ignoring_ascii_case(s.get_char(i), t.get_char(i)) {
            return false;
        }
        i = i + 1;
    }
    true
}

/// The kind of zone a service deploys.
#[derive(Clone, Debug, PartialEq)]
pub enum ServiceType {
    Vm,
    Agent,
}

impl ServiceType {
    pub open spec fn token_spec(&self) -> Seq<char> {
        match self {
            ServiceType::Vm => "vm"@,
            ServiceType::Agent => "agent"@,
        }
    }

    /// The lowercase token that stands for the kind on the wire.
    pub fn token(&self) -> (r: &'static str)
        ensures
            r@ == self.token_spec(),
    {
        match self {
            ServiceType::Vm => "vm",
            ServiceType::Agent => "agent",
        }
    }

    /// Reads a token, whatever the case of its letters.
    pub fn from_token(s: &str) -> (r: Option<ServiceType>)
        ensures
            r matches Some(t) ==> eq_ignoring_ascii_case(s@, t.token_spec()),
            r is None <==> !eq_ignoring_ascii_case(s@, "vm"@) && !eq_ignoring_ascii_case(s@, "agent"@),
    {
        if str_eq_ignoring_ascii_case(s, "vm") {
            Some(ServiceType::Vm)
        } else if str_eq_ignoring_ascii_case(s, "agent") {
            Some(ServiceType::Agent)
        } else {
            None
        }
    }

    pub fn to_json(&self) -> (r: JsonValue)
        ensures
            r@ == Json::Str(self.token_spec()),
    {
        JsonValue::Str(self.token().to_owned())
    }
}

pub type Services = Vec<ServiceData>;

pub type Instances = Vec<InstanceData>;

pub type Applications = Vec<ApplicationData>;

} // verus!
