//! Fibre Channel hosts of `/sys/class/fc_host`.
use vstd::prelude::*;
use crate::attrs::{attr_hex, attr_hex_ok, attr_text, read_hex, read_text};
use crate::error::MetricError;
use crate::kv::PairView;

verus! {


/// A Fibre Channel host: its attributes and its statistics.
#[derive(Debug, Clone)]
pub struct FibreChannelHost {
    pub speed: Option<String>,
    pub port_state: Option<String>,
    pub port_type: Option<String>,
    pub symbolic_name: Option<String>,
    pub node_name: Option<String>,
    pub port_id: Option<String>,
    pub port_name: Option<String>,
    pub fabric_name: Option<String>,
    pub dev_loss_tmo: Option<String>,
    pub supported_classes: Option<String>,
    pub supported_speeds: Option<String>,
    pub statistics: FibreChannelHostCounters,
}

impl FibreChannelHost {
    /// Each field holds what the attribute files give it.
    pub open spec fn read_from(&self, attrs: Seq<PairView>, stats: Seq<PairView>) -> bool {
        self.statistics.read_from(stats)
            && self.speed.deep_view() == attr_text(attrs, "speed"@)
            && self.port_state.deep_view() == attr_text(attrs, "port_state"@)
            && self.port_type.deep_view() == attr_text(attrs, "port_type"@)
            && self.symbolic_name.deep_view() == attr_text(attrs, "symbolic_name"@)
            && self.node_name.deep_view() == attr_text(attrs, "node_name"@)
            && self.port_id.deep_view() == attr_text(attrs, "port_id"@)
            && self.port_name.deep_view() == attr_text(attrs, "port_name"@)
            && self.fabric_name.deep_view() == attr_text(attrs, "fabric_name"@)
            && self.dev_loss_tmo.deep_view() == attr_text(attrs, "dev_loss_tmo"@)
            && self.supported_classes.deep_view() == attr_text(attrs, "supported_classes"@)
            && self.supported_speeds.deep_view() == attr_text(attrs, "supported_speeds"@)
    }

    /// Every numeric attribute that is given parses.
    pub open spec fn readable(stats: Seq<PairView>) -> bool {
        FibreChannelHostCounters::readable(stats)
    }

    /// Every field empty.
    pub open spec fn is_blank(&self) -> bool {
        self.statistics.is_blank()
            && self.speed is None
            && self.port_state is None
            && self.port_type is None
            && self.symbolic_name is None
            && self.node_name is None
            && self.port_id is None
            && self.port_name is None
            && self.fabric_name is None
            && self.dev_loss_tmo is None
            && self.supported_classes is None
            && self.supported_speeds is None
    }

    pub fn new() -> (r: Self)
        ensures
            r.is_blank(),
    {
        FibreChannelHost {
            speed: None,
            port_state: None,
            port_type: None,
            symbolic_name: None,
            node_name: None,
            port_id: None,
            port_name: None,
            fabric_name: None,
            dev_loss_tmo: None,
            supported_classes: None,
            supported_speeds: None,
            statistics: FibreChannelHostCounters::new(),
        }
    }

    /// The host whose directory holds the attribute files `attrs` and whose
    /// `statistics` directory holds `stats`.
    pub fn from_attrs(attrs: &Vec<(String, String)>, stats: &Vec<(String, String)>) -> (r: Result<
        Self,
        MetricError,
    >)
        ensures
            r is Ok <==> Self::readable(stats.deep_view()),
            r is Ok ==> r->Ok_0.read_from(attrs.deep_view(), stats.deep_view()),
    {
        let statistics = match FibreChannelHostCounters::from_attrs(stats) {
            Ok(s) => s,
            Err(e) => return Err(e),
        };
        Ok(FibreChannelHost {
            speed: read_text(attrs, "speed"),
            port_state: read_text(attrs, "port_state"),
            port_type: read_text(attrs, "port_type"),
            symbolic_name: read_text(attrs, "symbolic_name"),
            node_name: read_text(attrs, "node_name"),
            port_id: read_text(attrs, "port_id"),
            port_name: read_text(attrs, "port_name"),
            fabric_name: read_text(attrs, "fabric_name"),
            dev_loss_tmo: read_text(attrs, "dev_loss_tmo"),
            supported_classes: read_text(attrs, "supported_classes"),
            supported_speeds: read_text(attrs, "supported_speeds"),
            statistics,
        })
    }
}

/// The statistics of a Fibre Channel host, written in hexadecimal.
#[derive(Debug, Clone)]
pub struct FibreChannelHostCounters {
    pub dumped_frames: Option<u64>,
    pub error_frames: Option<u64>,
    pub invalid_crc_count: Option<u64>,
    pub rx_frames: Option<u64>,
    pub rx_words: Option<u64>,
    pub tx_frames: Option<u64>,
    pub tx_words: Option<u64>,
    pub seconds_since_last_reset: Option<u64>,
    pub invalid_tx_word_count: Option<u64>,
    pub link_failure_count: Option<u64>,
    pub loss_of_sync_count: Option<u64>,
    pub loss_of_signal_count: Option<u64>,
    pub nos_count: Option<u64>,
    pub fcp_packet_aborts: Option<u64>,
}

impl FibreChannelHostCounters {
    /// Each field holds what the attribute files give it.
    pub open spec fn read_from(&self, attrs: Seq<PairView>) -> bool {
        self.dumped_frames == attr_hex(attrs, "dumped_frames"@)
            && self.error_frames == attr_hex(attrs, "error_frames"@)
            && self.invalid_crc_count == attr_hex(attrs, "invalid_crc_count"@)
            && self.rx_frames == attr_hex(attrs, "rx_frames"@)
            && self.rx_words == attr_hex(attrs, "rx_words"@)
            && self.tx_frames == attr_hex(attrs, "tx_frames"@)
            && self.tx_words == attr_hex(attrs, "tx_words"@)
            && self.seconds_since_last_reset == attr_hex(attrs, "seconds_since_last_reset"@)
            && self.invalid_tx_word_count == attr_hex(attrs, "invalid_tx_word_count"@)
            && self.link_failure_count == attr_hex(attrs, "link_failure_count"@)
            && self.loss_of_sync_count == attr_hex(attrs, "loss_of_sync_count"@)
            && self.loss_of_signal_count == attr_hex(attrs, "loss_of_signal_count"@)
            && self.nos_count == attr_hex(attrs, "nos_count"@)
            && self.fcp_packet_aborts == attr_hex(attrs, "fcp_packet_aborts"@)
    }

    /// Every numeric attribute that is given parses.
    pub open spec fn readable(attrs: Seq<PairView>) -> bool {
        attr_hex_ok(attrs, "dumped_frames"@)
            && attr_hex_ok(attrs, "error_frames"@)
            && attr_hex_ok(attrs, "invalid_crc_count"@)
            && attr_hex_ok(attrs, "rx_frames"@)
            && attr_hex_ok(attrs, "rx_words"@)
            && attr_hex_ok(attrs, "tx_frames"@)
            && attr_hex_ok(attrs, "tx_words"@)
            && attr_hex_ok(attrs, "seconds_since_last_reset"@)
            && attr_hex_ok(attrs, "invalid_tx_word_count"@)
            && attr_hex_ok(attrs, "link_failure_count"@)
            && attr_hex_ok(attrs, "loss_of_sync_count"@)
            && attr_hex_ok(attrs, "loss_of_signal_count"@)
            && attr_hex_ok(attrs, "nos_count"@)
            && attr_hex_ok(attrs, "fcp_packet_aborts"@)
    }

    /// Every field empty.
    pub open spec fn is_blank(&self) -> bool {
        self.dumped_frames is None
            && self.error_frames is None
            && self.invalid_crc_count is None
            && self.rx_frames is None
            && self.rx_words is None
            && self.tx_frames is None
            && self.tx_words is None
            && self.seconds_since_last_reset is None
            && self.invalid_tx_word_count is None
            && self.link_failure_count is None
            && self.loss_of_sync_count is None
            && self.loss_of_signal_count is None
            && self.nos_count is None
            && self.fcp_packet_aborts is None
    }

    pub fn new() -> (r: Self)
        ensures
            r.is_blank(),
    {
        FibreChannelHostCounters {
            dumped_frames: None,
            error_frames: None,
            invalid_crc_count: None,
            rx_frames: None,
            rx_words: None,
            tx_frames: None,
            tx_words: None,
            seconds_since_last_reset: None,
            invalid_tx_word_count: None,
            link_failure_count: None,
            loss_of_sync_count: None,
            loss_of_signal_count: None,
            nos_count: None,
            fcp_packet_aborts: None,
        }
    }

    /// The counters of the `statistics` directory.
    pub fn from_attrs(attrs: &Vec<(String, String)>) -> (r: Result<Self, MetricError>)
        ensures
            r is Ok <==> Self::readable(attrs.deep_view()),
            r is Ok ==> r->Ok_0.read_from(attrs.deep_view()),
    {
        let dumped_frames = match read_hex(attrs, "dumped_frames") {
            Ok(v) => v,
            Err(e) => return Err(e),
        };
        let error_frames = match read_hex(attrs, "error_frames") {
            Ok(v) => v,
            Err(e) => return Err(e),
        };
        let invalid_crc_count = match read_hex(attrs, "invalid_crc_count") {
            Ok(v) => v,
            Err(e) => return Err(e),
        };
        let rx_frames = match read_hex(attrs, "rx_frames") {
            Ok(v) => v,
            Err(e) => return Err(e),
        };
        let rx_words = match read_hex(attrs, "rx_words") {
            Ok(v) => v,
            Err(e) => return Err(e),
        };
        let tx_frames = match read_hex(attrs, "tx_frames") {
            Ok(v) => v,
            Err(e) => return Err(e),
        };
        let tx_words = match read_hex(attrs, "tx_words") {
            Ok(v) => v,
            Err(e) => return Err(e),
        };
        let seconds_since_last_reset = match read_hex(attrs, "seconds_since_last_reset") {
            Ok(v) => v,
            Err(e) => return Err(e),
        };
        let invalid_tx_word_count = match read_hex(attrs, "invalid_tx_word_count") {
            Ok(v) => v,
            Err(e) => return Err(e),
        };
        let link_failure_count = match read_hex(attrs, "link_failure_count") {
            Ok(v) => v,
            Err(e) => return Err(e),
        };
        let loss_of_sync_count = match read_hex(attrs, "loss_of_sync_count") {
            Ok(v) => v,
            Err(e) => return Err(e),
        };
        let loss_of_signal_count = match read_hex(attrs, "loss_of_signal_count") {
            Ok(v) => v,
            Err(e) => return Err(e),
        };
        let nos_count = match read_hex(attrs, "nos_count") {
            Ok(v) => v,
            Err(e) => return Err(e),
        };
        let fcp_packet_aborts = match read_hex(attrs, "fcp_packet_aborts") {
            Ok(v) => v,
            Err(e) => return Err(e),
        };
        Ok(FibreChannelHostCounters {
            dumped_frames,
            error_frames,
            invalid_crc_count,
            rx_frames,
            rx_words,
            tx_frames,
            tx_words,
            seconds_since_last_reset,
            invalid_tx_word_count,
            link_failure_count,
            loss_of_sync_count,
            loss_of_signal_count,
            nos_count,
            fcp_packet_aborts,
        })
    }
}

} // verus!
