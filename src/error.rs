use vstd::prelude::*;

verus! {

/// Every failure that an operation of the library reports to its caller.
pub enum CoreError {
    /// No location service answered with a readable body.
    NetworkUnverifiable,
    /// A location service answered, and the country it saw is not the required one.
    LocationDenied { country: String, ip: String },
    /// The configuration file or its directory could not be read or written.
    ConfigIo(String),
    /// The configuration file exists and does not hold a valid configuration.
    ConfigParse(String),
    /// The resolver process could not be started.
    ResolverSpawnFailed(String),
    /// The resolver exited successfully and its output is not an episode list.
    ResolverOutputMalformed(String),
    /// The resolver exited unsuccessfully; the text is its standard error.
    ResolverProcessFailed(String),
    /// The worker process could not be started.
    WorkerSpawnFailed(String),
    /// The worker exited unsuccessfully (or could not be waited for); the text is its diagnostics.
    WorkerProcessFailed(String),
}

/// Text used when the location check found no answering location service.
pub open spec fn unverifiable_text() -> Seq<char> {
    "Could not verify VPN connection"@
}

/// Text used when an answering location service saw another country.
pub open spec fn denied_text(country: Seq<char>, ip: Seq<char>) -> Seq<char> {
    "Not connected to Japan VPN (detected: "@ + country + ", IP: "@ + ip + ")"@
}

/// Text used when the worker exited unsuccessfully: standard error, if any, follows.
pub open spec fn worker_failed_text(stderr: Seq<char>) -> Seq<char> {
    if stderr.len() == 0 {
        "Download failed"@
    } else {
        "Download failed: "@ + stderr
    }
}

impl CoreError {
    /// The short human-readable message shown for this failure.
    pub open spec fn message_spec(&self) -> Seq<char> {
        match self {
            CoreError::NetworkUnverifiable => unverifiable_text(),
            CoreError::LocationDenied { country, ip } => denied_text(country@, ip@),
            CoreError::ConfigIo(m) => m@,
            CoreError::ConfigParse(m) => m@,
            CoreError::ResolverSpawnFailed(m) => "Failed to execute Python script: "@ + m@,
            CoreError::ResolverOutputMalformed(m) => "Failed to parse episodes: "@ + m@,
            CoreError::ResolverProcessFailed(m) => m@,
            CoreError::WorkerSpawnFailed(m) => "Failed to start download: "@ + m@,
            CoreError::WorkerProcessFailed(m) => worker_failed_text(m@),
        }
    }

    pub fn message(&self) -> (r: String)
        ensures
            r@ == self.message_spec(),
    {
        match self {
            CoreError::NetworkUnverifiable => String::from_str("Could not verify VPN connection"),
            CoreError::LocationDenied { country, ip } => {
                let mut r = String::from_str("Not connected to Japan VPN (detected: ");
                r.append(country.as_str());
                r.append(", IP: ");
                r.append(ip.as_str());
                r.append(")");
                r
            },
            CoreError::ConfigIo(m) => m.clone(),
            CoreError::ConfigParse(m) => m.clone(),
            CoreError::ResolverSpawnFailed(m) => {
                let mut r = String::from_str("Failed to execute Python script: ");
                r.append(m.as_str());
                r
            },
            CoreError::ResolverOutputMalformed(m) => {
                let mut r = String::from_str("Failed to parse episodes: ");
                r.append(m.as_str());
                r
            },
            CoreError::ResolverProcessFailed(m) => m.clone(),
            CoreError::WorkerSpawnFailed(m) => {
                let mut r = String::from_str("Failed to start download: ");
                r.append(m.as_str());
                r
            },
            CoreError::WorkerProcessFailed(m) => {
                if m.as_str().unicode_len() == 0 {
                    String::from_str("Download failed")
                } else {
                    let mut r = String::from_str("Download failed: ");
                    r.append(m.as_str());
                    r
                }
            },
        }
    }
}

} // verus!
