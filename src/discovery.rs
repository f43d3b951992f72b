//! The retained messages that make a tracked product a discoverable device,
//! and those that erase it again.

use vstd::prelude::*;
use vstd::string::*;
use crate::identity::DeviceIdentity;
use crate::locator::ProductLocator;
use crate::snapshot::ProductSnapshot;
use crate::text::{decimal_string, int_decimal};

verus! {

/// One sensor of the device. Creation and erasure both walk this one
/// enumeration, so the two always address the same topics.
#[derive(PartialEq, Eq, Structural, Clone, Copy, Debug)]
pub enum Entity {
    Name,
    Price,
    Stock,
    UpdatedAt,
    ScraperVersion,
}

/// Every entity, in publishing order.
pub open spec fn entities() -> Seq<Entity> {
    seq![Entity::Name, Entity::Price, Entity::Stock, Entity::UpdatedAt, Entity::ScraperVersion]
}

/// The topic segment of an entity.
pub open spec fn slug_of(e: Entity) -> Seq<char> {
    match e {
        Entity::Name => "name"@,
        Entity::Price => "price"@,
        Entity::Stock => "stock"@,
        Entity::UpdatedAt => "updated-at"@,
        Entity::ScraperVersion => "scraper-version"@,
    }
}

/// The suffix of an entity's unique identifier.
pub open spec fn id_suffix_of(e: Entity) -> Seq<char> {
    match e {
        Entity::Name => "name"@,
        Entity::Price => "price"@,
        Entity::Stock => "stock"@,
        Entity::UpdatedAt => "updatedat"@,
        Entity::ScraperVersion => "scraperversion"@,
    }
}

/// The configuration members of an entity that sort before `state_topic`.
pub open spec fn before_state_topic(e: Entity) -> Seq<char> {
    match e {
        Entity::Name => ",\"force_update\":true,\"name\":\"Name\",\"platform\":\"sensor\",\"state_topic\":"@,
        Entity::Price => ",\"device_class\":\"monetary\",\"force_update\":true,\"name\":\"Price\",\"platform\":\"sensor\",\"state_topic\":"@,
        Entity::Stock => ",\"force_update\":true,\"icon\":\"mdi:numeric\",\"name\":\"Stock\",\"platform\":\"sensor\",\"state_topic\":"@,
        Entity::UpdatedAt => ",\"device_class\":\"timestamp\",\"enabled_by_default\":true,\"entity_category\":\"diagnostic\",\"force_update\":false,\"name\":\"Last update\",\"platform\":\"sensor\",\"state_topic\":"@,
        Entity::ScraperVersion => ",\"entity_category\":\"diagnostic\",\"force_update\":false,\"icon\":\"mdi:cogs\",\"name\":\"Scraper version\",\"platform\":\"sensor\",\"state_topic\":"@,
    }
}

/// The configuration members of an entity between `state_topic` and `unique_id`.
pub open spec fn before_unique_id(e: Entity) -> Seq<char> {
    match e {
        Entity::Stock => ",\"suggested_display_precision\":0,\"unique_id\":"@,
        _ => ",\"unique_id\":"@,
    }
}

/// The configuration members of an entity after `unique_id`.
pub open spec fn after_unique_id(e: Entity) -> Seq<char> {
    match e {
        Entity::Price => ",\"unit_of_measurement\":\"IDR\"}"@,
        Entity::Stock => ",\"unit_of_measurement\":\"pcs\"}"@,
        _ => "}"@,
    }
}

impl Entity {
    /// The entity at position `i` of the publishing order.
    pub fn at(i: usize) -> (r: Entity)
        requires
            i < 5,
        ensures
            r == entities()[i as int],
    {
        if i == 0 {
            Entity::Name
        } else if i == 1 {
            Entity::Price
        } else if i == 2 {
            Entity::Stock
        } else if i == 3 {
            Entity::UpdatedAt
        } else {
            Entity::ScraperVersion
        }
    }

    /// The topic segment of this entity.
    pub fn slug(&self) -> (r: &'static str)
        ensures
            r@ == slug_of(*self),
    {
        match self {
            Entity::Name => "name",
            Entity::Price => "price",
            Entity::Stock => "stock",
            Entity::UpdatedAt => "updated-at",
            Entity::ScraperVersion => "scraper-version",
        }
    }

    fn id_suffix(&self) -> (r: &'static str)
        ensures
            r@ == id_suffix_of(*self),
    {
        match self {
            Entity::Name => "name",
            Entity::Price => "price",
            Entity::Stock => "stock",
            Entity::UpdatedAt => "updatedat",
            Entity::ScraperVersion => "scraperversion",
        }
    }

    fn before_state_topic(&self) -> (r: &'static str)
        ensures
            r@ == before_state_topic(*self),
    {
        match self {
            Entity::Name => ",\"force_update\":true,\"name\":\"Name\",\"platform\":\"sensor\",\"state_topic\":",
            Entity::Price => ",\"device_class\":\"monetary\",\"force_update\":true,\"name\":\"Price\",\"platform\":\"sensor\",\"state_topic\":",
            Entity::Stock => ",\"force_update\":true,\"icon\":\"mdi:numeric\",\"name\":\"Stock\",\"platform\":\"sensor\",\"state_topic\":",
            Entity::UpdatedAt => ",\"device_class\":\"timestamp\",\"enabled_by_default\":true,\"entity_category\":\"diagnostic\",\"force_update\":false,\"name\":\"Last update\",\"platform\":\"sensor\",\"state_topic\":",
            Entity::ScraperVersion => ",\"entity_category\":\"diagnostic\",\"force_update\":false,\"icon\":\"mdi:cogs\",\"name\":\"Scraper version\",\"platform\":\"sensor\",\"state_topic\":",
        }
    }

    fn before_unique_id(&self) -> (r: &'static str)
        ensures
            r@ == before_unique_id(*self),
    {
        match self {
            Entity::Stock => ",\"suggested_display_precision\":0,\"unique_id\":",
            _ => ",\"unique_id\":",
        }
    }

    fn after_unique_id(&self) -> (r: &'static str)
        ensures
            r@ == after_unique_id(*self),
    {
        match self {
            Entity::Price => ",\"unit_of_measurement\":\"IDR\"}",
            Entity::Stock => ",\"unit_of_measurement\":\"pcs\"}",
            _ => "}",
        }
    }
}

/// The discovery configuration topic of entity `e` of device `hash`.
pub open spec fn config_topic_of(prefix: Seq<char>, hash: Seq<char>, e: Entity) -> Seq<char> {
    prefix + "/sensor/tkpd-"@ + hash + "/"@ + slug_of(e) + "/config"@
}

/// The state topic of entity `e` of device `hash`.
pub open spec fn state_topic_of(hash: Seq<char>, e: Entity) -> Seq<char> {
    "tkpdprice/"@ + hash + "/"@ + slug_of(e)
}

/// The unique identifier of entity `e` of device `hash`.
pub open spec fn unique_id_of(hash: Seq<char>, e: Entity) -> Seq<char> {
    "tkpdprice-"@ + hash + "-"@ + id_suffix_of(e)
}

/// The discovery configuration topic of entity `e` of device `hash`.
pub fn config_topic(prefix: &str, hash: &str, e: Entity) -> (r: String)
    ensures
        r@ == config_topic_of(prefix@, hash@, e),
{
    let mut r = String::from_str(prefix);
    r.append("/sensor/tkpd-");
    r.append(hash);
    r.append("/");
    r.append(e.slug());
    r.append("/config");
    r
}

/// The state topic of entity `e` of device `hash`.
pub fn state_topic(hash: &str, e: Entity) -> (r: String)
    ensures
        r@ == state_topic_of(hash@, e),
{
    let mut r = String::from_str("tkpdprice/");
    r.append(hash);
    r.append("/");
    r.append(e.slug());
    r
}

/// The unique identifier of entity `e` of device `hash`.
pub fn unique_id(hash: &str, e: Entity) -> (r: String)
    ensures
        r@ == unique_id_of(hash@, e),
{
    let mut r = String::from_str("tkpdprice-");
    r.append(hash);
    r.append("-");
    r.append(e.id_suffix());
    r
}

/// The compact JSON text of the string `s`: quoted, with JSON escapes.
pub uninterp spec fn json_text_of(s: Seq<char>) -> Seq<char>;

/// Relies on serde_json's `Value::String` and its `Display` impl: the compact
/// JSON text of a string value, quoted and escaped, which depends on the
/// characters alone.
#[verifier::external_body]
pub(crate) fn json_quote(s: &str) -> (r: String)
    ensures
        r@ == json_text_of(s@),
{
    serde_json::Value::String(s.to_string()).to_string()
}

/// The product page address that the device links to.
pub open spec fn page_url_of(locator: (Seq<char>, Seq<char>)) -> Seq<char> {
    "https://tokopedia.com/"@ + locator.0 + "/"@ + locator.1
}

/// The device block, from the JSON texts of its members.
pub open spec fn device_text(
    url_json: Seq<char>,
    identifiers_json: Seq<char>,
    manufacturer_json: Seq<char>,
    model_json: Seq<char>,
    serial_json: Seq<char>,
    version_json: Seq<char>,
) -> Seq<char> {
    "{\"configuration_url\":"@ + url_json + ",\"identifiers\":"@ + identifiers_json
        + ",\"manufacturer\":"@ + manufacturer_json + ",\"model_id\":"@ + model_json
        + ",\"name\":"@ + model_json + ",\"serial_number\":"@ + serial_json + ",\"sw_version\":"@
        + version_json + "}"@
}

/// The device block shared by every configuration payload of one run.
pub open spec fn device_json_of(
    locator: (Seq<char>, Seq<char>),
    hash: Seq<char>,
    name: Seq<char>,
    version: Seq<char>,
) -> Seq<char> {
    device_text(
        json_text_of(page_url_of(locator)),
        json_text_of("tkpdprice-"@ + hash),
        json_text_of(locator.0),
        json_text_of(name),
        json_text_of(hash),
        json_text_of(version),
    )
}

/// The discovery configuration payload of entity `e`, from the device block
/// and the JSON texts of its state topic and unique identifier.
pub open spec fn config_text(
    device: Seq<char>,
    e: Entity,
    state_topic_json: Seq<char>,
    unique_id_json: Seq<char>,
) -> Seq<char> {
    "{\"device\":"@ + device + before_state_topic(e) + state_topic_json + before_unique_id(e)
        + unique_id_json + after_unique_id(e)
}

/// The discovery configuration payload of entity `e`.
pub open spec fn config_payload_of(device: Seq<char>, hash: Seq<char>, e: Entity) -> Seq<char> {
    config_text(device, e, json_text_of(state_topic_of(hash, e)), json_text_of(unique_id_of(hash, e)))
}

/// The state payload of entity `e`.
pub open spec fn state_payload_of(
    e: Entity,
    snapshot: (Seq<char>, i64, i64),
    timestamp: Seq<char>,
    version: Seq<char>,
) -> Seq<char> {
    match e {
        Entity::Name => snapshot.0,
        Entity::Price => int_decimal(snapshot.1 as int),
        Entity::Stock => int_decimal(snapshot.2 as int),
        Entity::UpdatedAt => timestamp,
        Entity::ScraperVersion => version,
    }
}

fn page_url(locator: &ProductLocator) -> (r: String)
    ensures
        r@ == page_url_of(locator@),
{
    let mut r = String::from_str("https://tokopedia.com/");
    r.append(locator.shop_domain.as_str());
    r.append("/");
    r.append(locator.product_key.as_str());
    r
}

/// Assembles the device block from the JSON texts of its members.
pub fn device_text_from(
    url_json: &str,
    identifiers_json: &str,
    manufacturer_json: &str,
    model_json: &str,
    serial_json: &str,
    version_json: &str,
) -> (r: String)
    ensures
        r@ == device_text(
            url_json@,
            identifiers_json@,
            manufacturer_json@,
            model_json@,
            serial_json@,
            version_json@,
        ),
{
    let mut r = String::from_str("{\"configuration_url\":");
    r.append(url_json);
    r.append(",\"identifiers\":");
    r.append(identifiers_json);
    r.append(",\"manufacturer\":");
    r.append(manufacturer_json);
    r.append(",\"model_id\":");
    r.append(model_json);
    r.append(",\"name\":");
    r.append(model_json);
    r.append(",\"serial_number\":");
    r.append(serial_json);
    r.append(",\"sw_version\":");
    r.append(version_json);
    r.append("}");
    r
}

/// The device block shared by every configuration payload of one run.
pub fn device_json(
    locator: &ProductLocator,
    identity: &DeviceIdentity,
    name: &str,
    version: &str,
) -> (r: String)
    ensures
        r@ == device_json_of(locator@, identity@, name@, version@),
{
    let hash = identity.as_str();
    let mut identifiers = String::from_str("tkpdprice-");
    identifiers.append(hash);
    device_text_from(
        json_quote(page_url(locator).as_str()).as_str(),
        json_quote(identifiers.as_str()).as_str(),
        json_quote(locator.shop_domain.as_str()).as_str(),
        json_quote(name).as_str(),
        json_quote(hash).as_str(),
        json_quote(version).as_str(),
    )
}

/// Assembles the configuration payload of entity `e` from the device block and
/// the JSON texts of the state topic and unique identifier.
pub fn config_text_from(device: &str, e: Entity, state_topic_json: &str, unique_id_json: &str) -> (r:
    String)
    ensures
        r@ == config_text(device@, e, state_topic_json@, unique_id_json@),
{
    let mut r = String::from_str("{\"device\":");
    r.append(device);
    r.append(e.before_state_topic());
    r.append(state_topic_json);
    r.append(e.before_unique_id());
    r.append(unique_id_json);
    r.append(e.after_unique_id());
    r
}

/// The discovery configuration payload of entity `e`, around the device block.
pub fn config_payload(device: &str, hash: &str, e: Entity) -> (r: String)
    ensures
        r@ == config_payload_of(device@, hash@, e),
{
    config_text_from(
        device,
        e,
        json_quote(state_topic(hash, e).as_str()).as_str(),
        json_quote(unique_id(hash, e).as_str()).as_str(),
    )
}

/// The state payload of entity `e`.
pub fn state_payload(e: Entity, snapshot: &ProductSnapshot, timestamp: &str, version: &str) -> (r:
    String)
    ensures
        r@ == state_payload_of(e, snapshot@, timestamp@, version@),
{
    match e {
        Entity::Name => snapshot.name.clone(),
        Entity::Price => decimal_string(snapshot.price),
        Entity::Stock => decimal_string(snapshot.stock),
        Entity::UpdatedAt => String::from_str(timestamp),
        Entity::ScraperVersion => String::from_str(version),
    }
}

} // verus!
