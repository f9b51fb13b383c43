//! The dashboard's state between ticks: what it watches, the published
//! metrics, and the decisions of the update loop.

use vstd::prelude::*;
use starknet::providers::Url;
use crate::metrics::{Metrics, MetricsView, Sample};

verus! {

#[verifier::external_type_specification]
#[verifier::external_body]
pub struct ExUrl(Url);

/// Whether the URL parser accepts a text as an absolute URL.
pub uninterp spec fn url_accepts(s: Seq<char>) -> bool;

/// Relies on `url::Url::parse` (re-exported by starknet's providers): it returns
/// `Ok` exactly for the texts it parses as an absolute URL, which depends on the
/// text alone.
#[verifier::external_body]
fn parse_url(s: &str) -> (r: Option<Url>)
    ensures
        r is Some <==> url_accepts(s@),
{
    Url::parse(s).ok()
}

/// What the dashboard watches: the node's RPC endpoint, the name of the node's
/// process, and the directory whose size is its storage use.
pub struct Radar {
    pub endpoint: Url,
    pub process_name: String,
    pub storage_directory: String,
}

impl Radar {
    /// Builds the watch list; fails when the endpoint is not a valid URL.
    pub fn new(jsonrpc_endpoint: &str, process_name: &str, target_storage_directory: &str) -> (r:
        Result<Radar, String>)
        ensures
            r is Ok <==> url_accepts(jsonrpc_endpoint@),
            r matches Ok(radar) ==> radar.process_name@ == process_name@
                && radar.storage_directory@ == target_storage_directory@,
            r matches Err(e) ==> e@ == "Error: Not a Valid URL for RPC endpoint"@,
    {
        let endpoint = parse_url(jsonrpc_endpoint);
        Radar::from_endpoint(endpoint, process_name, target_storage_directory)
    }

    /// Builds the watch list from the endpoint as the URL parser returned it:
    /// `None` where it refused the text.
    pub fn from_endpoint(endpoint: Option<Url>, process_name: &str, target_storage_directory: &str) -> (r:
        Result<Radar, String>)
        ensures
            r is Ok <==> endpoint is Some,
            r matches Ok(radar) ==> Some(radar.endpoint) == endpoint
                && radar.process_name@ == process_name@
                && radar.storage_directory@ == target_storage_directory@,
            r matches Err(e) ==> e@ == "Error: Not a Valid URL for RPC endpoint"@,
    {
        match endpoint {
            Some(url) => Ok(
                Radar {
                    endpoint: url,
                    process_name: String::from_str(process_name),
                    storage_directory: String::from_str(target_storage_directory),
                },
            ),
            None => Err(String::from_str("Error: Not a Valid URL for RPC endpoint")),
        }
    }
}

/// A user input seen at the end of a tick.
#[derive(Clone, Copy, Debug, PartialEq, Eq, Structural)]
pub enum Input {
    /// Nothing arrived within the polling budget.
    Idle,
    /// A character key was pressed.
    Press(char),
    /// Anything else: a release, a non-character key, a resize.
    Other,
}

/// The key that stops the dashboard.
pub const QUIT_KEY: char = 'q';

/// The input asks the dashboard to stop.
pub open spec fn is_quit(input: Input) -> bool {
    input == Input::Press(QUIT_KEY)
}

/// The dashboard: whether it is stopping, the metrics it publishes, and what it watches.
pub struct App {
    pub should_quit: bool,
    pub data: Metrics,
    pub radar: Radar,
}

impl App {
    /// A running dashboard with every window holding `window_size` zeros;
    /// fails when the endpoint is not a valid URL.
    pub fn new(
        process_name: &str,
        rpc_endpoint: &str,
        storage_path: &str,
        window_size: usize,
        total_memory: u64,
    ) -> (r: Result<App, String>)
        ensures
            r is Ok <==> url_accepts(rpc_endpoint@),
            r matches Ok(app) ==> !app.should_quit
                && app.data@ == MetricsView::initial(window_size as nat, total_memory)
                && app.radar.process_name@ == process_name@
                && app.radar.storage_directory@ == storage_path@,
            r matches Err(e) ==> e@ == "Error: Not a Valid URL for RPC endpoint"@,
    {
        match Radar::new(rpc_endpoint, process_name, storage_path) {
            Ok(radar) => Ok(App { should_quit: false, data: Metrics::new(window_size, total_memory), radar }),
            Err(e) => Err(e),
        }
    }

    /// Publishes one tick's sample.
    pub fn update_metrics(&mut self, sample: Sample)
        ensures
            final(self).data@ == old(self).data@.next(sample),
            final(self).should_quit == old(self).should_quit,
            final(self).radar == old(self).radar,
    {
        self.data.record(sample);
    }

    /// Takes note of the input polled at the end of a tick: the quit key stops
    /// the dashboard for good, anything else leaves it as it is.
    pub fn handle_input(&mut self, input: Input)
        ensures
            final(self).should_quit == (old(self).should_quit || is_quit(input)),
            final(self).data@ == old(self).data@,
            final(self).radar == old(self).radar,
    {
        let quit = match input {
            Input::Press(c) => c == QUIT_KEY,
            _ => false,
        };
        if quit {
            self.should_quit = true;
        }
    }
}

/// One tick of the update loop: publish the sample, then take note of the input.
pub fn update(app: &mut App, sample: Sample, input: Input)
    ensures
        final(app).data@ == old(app).data@.next(sample),
        final(app).should_quit == (old(app).should_quit || is_quit(input)),
        final(app).radar == old(app).radar,
{
    app.update_metrics(sample);
    app.handle_input(input);
}

} // verus!
