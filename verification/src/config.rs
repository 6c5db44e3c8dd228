//! Startup settings of the service.

use vstd::prelude::*;

verus! {

/// The settings that the service starts with. They are taken as given: the
/// service validates none of them.
#[derive(Debug)]
pub struct Config {
    pub host: String,
    pub port: u32,
    pub get_price_duration_sec: u32,
    pub gecko_api_url: String,
    pub gecko_api_key: String,
    pub database_url: String,
}

impl Clone for Config {
    fn clone(&self) -> (copy: Self)
        ensures
            copy == *self,
    {
        Config {
            host: self.host.clone(),
            port: self.port,
            get_price_duration_sec: self.get_price_duration_sec,
            gecko_api_url: self.gecko_api_url.clone(),
            gecko_api_key: self.gecko_api_key.clone(),
            database_url: self.database_url.clone(),
        }
    }
}

} // verus!
