//! What the plant clients and the service send each other over MQTT, and what
//! a client does with a watering request. Readings are `f32` bit patterns
//! (see `reading`).

use vstd::prelude::*;

verus! {

/// What went wrong on a client.
#[derive(Debug, Clone, Copy, PartialEq, Eq)]
pub enum Error {
    HardwareError,
}

/// A client's report: a failure, or one measurement.
#[derive(Debug, Clone, Copy, PartialEq, Eq)]
pub enum MeasurementDTO {
    Error(Error),
    Measurement {
        /// `f32` bit pattern of the soil moisture.
        moisture: u32,
        /// `f32` bit pattern of the temperature.
        temperature: u32,
        /// `f32` bit pattern of the air humidity.
        humidity: u32,
    },
}

/// An event of the client with the given uuid.
pub struct ClientEvent<T> {
    pub uuid: String,
    pub event: T,
}

/// The service asks the client with `uuid` to open (`set_active`) or to close its valve.
pub struct WaterRequestDTO {
    pub uuid: String,
    pub set_active: bool,
}

impl Default for WaterRequestDTO {
    fn default() -> (r: Self)
        ensures
            r.uuid@ == Seq::<char>::empty(),
            !r.set_active,
    {
        WaterRequestDTO { uuid: String::new(), set_active: false }
    }
}

impl WaterRequestDTO {
    /// What the client whose uuid is `own_uuid` does on this request: nothing
    /// (`None`) where the request is for another client, else it drives its
    /// valve high (`Some(true)`) or low (`Some(false)`).
    pub fn valve_setting(&self, own_uuid: &String) -> (r: Option<bool>)
        ensures
            r == (if self.uuid@ == own_uuid@ {
                Some(self.set_active)
            } else {
                None::<bool>
            }),
    {
        if self.uuid != *own_uuid {
            return None;
        }
        Some(self.set_active)
    }
}

/// The default port of an MQTT broker.
pub const MQTT_DEFAULT_PORT: u16 = 1883;

/// What a client reads of a server's URL: its host and its explicit port.
pub struct ServerAddress {
    pub host: Option<String>,
    pub port: Option<u16>,
}

/// What a client knows of the service: where its HTTP interface and its MQTT
/// broker are.
pub struct Connection {
    pub http_server: ServerAddress,
    pub mqtt_server: ServerAddress,
}

/// The host and the port of an address, as plain values.
pub open spec fn address_view(a: ServerAddress) -> (Option<Seq<char>>, Option<u16>) {
    (
        match a.host {
            Some(h) => Some(h@),
            None => None::<Seq<char>>,
        },
        a.port,
    )
}

/// Which of the two server URLs is malformed.
#[derive(Debug, Clone, Copy, PartialEq, Eq)]
pub enum ConnectionError {
    MalformedHttpServer,
    MalformedMqttServer,
}

/// The address of a URL that the caller knows to be well formed.
fn server_address(text: &str) -> (a: ServerAddress)
    requires
        url_address(text@) is Some,
    ensures
        url_address(text@) == Some(address_view(a)),
{
    match parse_server_url(text) {
        Some(a) => a,
        None => vstd::pervasive::unreached(),
    }
}

impl Connection {
    /// The connection that the two URLs describe; both must be well formed.
    pub fn new(http_server: &str, mqtt_server: &str) -> (c: Connection)
        requires
            url_address(http_server@) is Some,
            url_address(mqtt_server@) is Some,
        ensures
            Some(address_view(c.http_server)) == url_address(http_server@),
            Some(address_view(c.mqtt_server)) == url_address(mqtt_server@),
    {
        Connection { http_server: server_address(http_server), mqtt_server: server_address(mqtt_server) }
    }

    /// The connection that the two URLs describe, or which of them is
    /// malformed first (the HTTP server's is read first).
    pub fn from_settings(http_server: &str, mqtt_server: &str) -> (r: Result<Connection, ConnectionError>)
        ensures
            url_address(http_server@) is None ==> r == Err::<Connection, ConnectionError>(
                ConnectionError::MalformedHttpServer,
            ),
            url_address(http_server@) is Some && url_address(mqtt_server@) is None ==> r == Err::<
                Connection,
                ConnectionError,
            >(ConnectionError::MalformedMqttServer),
            r matches Ok(c) ==> Some(address_view(c.http_server)) == url_address(http_server@) && Some(
                address_view(c.mqtt_server),
            ) == url_address(mqtt_server@),
            url_address(http_server@) is Some && url_address(mqtt_server@) is Some ==> r is Ok,
    {
        if parse_server_url(http_server).is_none() {
            return Err(ConnectionError::MalformedHttpServer);
        }
        if parse_server_url(mqtt_server).is_none() {
            return Err(ConnectionError::MalformedMqttServer);
        }
        Ok(Connection::new(http_server, mqtt_server))
    }
}

/// For a text that `url::Url::parse` accepts, the URL's `host_str()` and
/// `port()`; `None` for a text that it refuses.
pub uninterp spec fn url_address(text: Seq<char>) -> Option<(Option<Seq<char>>, Option<u16>)>;

/// Calls `url::Url::parse` and reads the host (`host_str`) and the explicit
/// port (`port`) of the URL. Claimed: the result is `url_address` of the text.
#[verifier::external_body]
pub(crate) fn parse_server_url(text: &str) -> (r: Option<ServerAddress>)
    ensures
        match r {
            None => url_address(text@) is None,
            Some(a) => url_address(text@) == Some(address_view(a)),
        },
{
    match url::Url::parse(text) {
        Ok(u) => Some(ServerAddress {
            host: match u.host_str() {
                Some(h) => Some(h.to_string()),
                None => None,
            },
            port: u.port(),
        }),
        Err(_) => None,
    }
}

/// Where a client reaches the MQTT broker: the host of its URL (there is none
/// without one) and the URL's port, or `MQTT_DEFAULT_PORT` where it names none.
pub fn mqtt_endpoint(a: &ServerAddress) -> (r: Option<(String, u16)>)
    ensures
        r is Some <==> a.host is Some,
        r matches Some((h, p)) ==> h@ == a.host.unwrap()@ && p == match a.port {
            Some(p) => p,
            None => MQTT_DEFAULT_PORT,
        },
{
    match &a.host {
        None => None,
        Some(h) => {
            let port = match a.port {
                Some(p) => p,
                None => MQTT_DEFAULT_PORT,
            };
            Some((h.clone(), port))
        },
    }
}

} // verus!
