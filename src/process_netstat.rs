//! The extended TCP and IP counters of `/proc/<pid>/net/netstat`.
use vstd::prelude::*;
use crate::error::MetricError;
use crate::stat_table::{field_parses, field_value, parse_table, read_field, rows_view, table_of, RowView, StatRow};
use crate::text::chars_of;

verus! {

/// The counters of `/proc/<pid>/net/netstat`, section by section.
#[derive(Debug, Clone)]
pub struct ProcessNetstat {
    pub tcp_ext: TcpExt,
    pub ip_ext: IpExt,
}

/// The `TcpExt` section: extended TCP counters.
#[derive(Debug, Clone)]
pub struct TcpExt {
    pub syn_cookies_sent: Option<i64>,
    pub syn_cookies_recv: Option<i64>,
    pub syn_cookies_failed: Option<i64>,
    pub embryonic_rsts: Option<i64>,
    pub prune_called: Option<i64>,
    pub rcv_pruned: Option<i64>,
    pub ofo_pruned: Option<i64>,
    pub out_of_window_icmps: Option<i64>,
    pub lock_dropped_icmps: Option<i64>,
    pub arp_filter: Option<i64>,
    pub tw: Option<i64>,
    pub tw_recycled: Option<i64>,
    pub tw_killed: Option<i64>,
    pub paws_active: Option<i64>,
    pub paws_estab: Option<i64>,
    pub delayed_acks: Option<i64>,
    pub delayed_ack_locked: Option<i64>,
    pub delayed_ack_lost: Option<i64>,
    pub listen_overflows: Option<i64>,
    pub listen_drops: Option<i64>,
    pub tcp_hp_hits: Option<i64>,
    pub tcp_pure_acks: Option<i64>,
    pub tcp_hp_acks: Option<i64>,
    pub tcp_reno_recovery: Option<i64>,
    pub tcp_s_ack_recovery: Option<i64>,
    pub tcp_s_ack_reneging: Option<i64>,
    pub tcp_s_ack_reorder: Option<i64>,
    pub tcp_reno_reorder: Option<i64>,
    pub tcp_ts_reorder: Option<i64>,
    pub tcp_full_undo: Option<i64>,
    pub tcp_partial_undo: Option<i64>,
    pub tcp_ds_ack_undo: Option<i64>,
    pub tcp_loss_undo: Option<i64>,
    pub tcp_lost_retransmit: Option<i64>,
    pub tcp_reno_failures: Option<i64>,
    pub tcp_s_ack_failures: Option<i64>,
    pub tcp_loss_failures: Option<i64>,
    pub tcp_fast_retrans: Option<i64>,
    pub tcp_slow_start_retrans: Option<i64>,
    pub tcp_timeouts: Option<i64>,
    pub tcp_loss_probes: Option<i64>,
    pub tcp_loss_probe_recovery: Option<i64>,
    pub tcp_reno_recovery_fail: Option<i64>,
    pub tcp_s_ack_recovery_fail: Option<i64>,
    pub tcp_rcv_collapsed: Option<i64>,
    pub tcp_backlog_coalesce: Option<i64>,
    pub tcp_ds_ack_old_sent: Option<i64>,
    pub tcp_ds_ack_ofo_sent: Option<i64>,
    pub tcp_ds_ack_recv: Option<i64>,
    pub tcp_ds_ack_ofo_recv: Option<i64>,
    pub tcp_abort_on_data: Option<i64>,
    pub tcp_abort_on_close: Option<i64>,
    pub tcp_abort_on_memory: Option<i64>,
    pub tcp_abort_on_timeout: Option<i64>,
    pub tcp_abort_on_linger: Option<i64>,
    pub tcp_abort_failed: Option<i64>,
    pub tcp_memory_pressures: Option<i64>,
    pub tcp_memory_pressures_chrono: Option<i64>,
    pub tcp_s_ack_discard: Option<i64>,
    pub tcp_ds_ack_ignored_old: Option<i64>,
    pub tcp_ds_ack_ignored_no_undo: Option<i64>,
    pub tcp_spurious_rtos: Option<i64>,
    pub tcp_md5_not_found: Option<i64>,
    pub tcp_md5_unexpected: Option<i64>,
    pub tcp_md5_failure: Option<i64>,
    pub tcp_s_ack_shifted: Option<i64>,
    pub tcp_s_ack_merged: Option<i64>,
    pub tcp_s_ack_shift_fallback: Option<i64>,
    pub tcp_backlog_drop: Option<i64>,
    pub pf_memalloc_drop: Option<i64>,
    pub tcp_min_ttl_drop: Option<i64>,
    pub tcp_defer_accept_drop: Option<i64>,
    pub ip_reverse_path_filter: Option<i64>,
    pub tcp_time_wait_overflow: Option<i64>,
    pub tcp_req_q_full_do_cookies: Option<i64>,
    pub tcp_req_q_full_drop: Option<i64>,
    pub tcp_retrans_fail: Option<i64>,
    pub tcp_rcv_coalesce: Option<i64>,
    pub tcp_ofo_queue: Option<i64>,
    pub tcp_ofo_drop: Option<i64>,
    pub tcp_ofo_merge: Option<i64>,
    pub tcp_challenge_ack: Option<i64>,
    pub tcp_syn_challenge: Option<i64>,
    pub tcp_fast_open_active: Option<i64>,
    pub tcp_fast_open_active_fail: Option<i64>,
    pub tcp_fast_open_passive: Option<i64>,
    pub tcp_fast_open_passive_fail: Option<i64>,
    pub tcp_fast_open_listen_overflow: Option<i64>,
    pub tcp_fast_open_cookie_reqd: Option<i64>,
    pub tcp_fast_open_blackhole: Option<i64>,
    pub tcp_spurious_rtx_host_queues: Option<i64>,
    pub busy_poll_rx_packets: Option<i64>,
    pub tcp_auto_corking: Option<i64>,
    pub tcp_from_zero_window_adv: Option<i64>,
    pub tcp_to_zero_window_adv: Option<i64>,
    pub tcp_want_zero_window_adv: Option<i64>,
    pub tcp_syn_retrans: Option<i64>,
    pub tcp_orig_data_sent: Option<i64>,
    pub tcp_hystart_train_detect: Option<i64>,
    pub tcp_hystart_train_cwnd: Option<i64>,
    pub tcp_hystart_delay_detect: Option<i64>,
    pub tcp_hystart_delay_cwnd: Option<i64>,
    pub tcp_ack_skipped_syn_recv: Option<i64>,
    pub tcp_ack_skipped_paws: Option<i64>,
    pub tcp_ack_skipped_seq: Option<i64>,
    pub tcp_ack_skipped_fin_wait2: Option<i64>,
    pub tcp_ack_skipped_time_wait: Option<i64>,
    pub tcp_ack_skipped_challenge: Option<i64>,
    pub tcp_win_probe: Option<i64>,
    pub tcp_keep_alive: Option<i64>,
    pub tcp_mtup_fail: Option<i64>,
    pub tcp_mtup_success: Option<i64>,
    pub tcp_delivered: Option<i64>,
    pub tcp_delivered_ce: Option<i64>,
    pub tcp_ack_compressed: Option<i64>,
    pub tcp_zero_window_drop: Option<i64>,
    pub tcp_rcv_q_drop: Option<i64>,
    pub tcp_wqueue_too_big: Option<i64>,
    pub tcp_fast_open_passive_altkey: Option<i64>,
    pub tcp_timeout_rehash: Option<i64>,
    pub tcp_duplicate_data_rehash: Option<i64>,
    pub tcp_ds_ack_recv_segs: Option<i64>,
    pub tcp_ds_ack_ignored_dubious: Option<i64>,
    pub tcp_migrate_req_success: Option<i64>,
    pub tcp_migrate_req_failure: Option<i64>,
    pub tcp_plb_rehash: Option<i64>,
    pub tcp_ao_required: Option<i64>,
    pub tcp_ao_bad: Option<i64>,
    pub tcp_ao_key_not_found: Option<i64>,
    pub tcp_ao_good: Option<i64>,
    pub tcp_ao_dropped_icmps: Option<i64>,
}

impl TcpExt {
    /// No counter known yet.
    pub open spec fn is_blank(&self) -> bool {
        self.syn_cookies_sent is None
        && self.syn_cookies_recv is None
        && self.syn_cookies_failed is None
        && self.embryonic_rsts is None
        && self.prune_called is None
        && self.rcv_pruned is None
        && self.ofo_pruned is None
        && self.out_of_window_icmps is None
        && self.lock_dropped_icmps is None
        && self.arp_filter is None
        && self.tw is None
        && self.tw_recycled is None
        && self.tw_killed is None
        && self.paws_active is None
        && self.paws_estab is None
        && self.delayed_acks is None
        && self.delayed_ack_locked is None
        && self.delayed_ack_lost is None
        && self.listen_overflows is None
        && self.listen_drops is None
        && self.tcp_hp_hits is None
        && self.tcp_pure_acks is None
        && self.tcp_hp_acks is None
        && self.tcp_reno_recovery is None
        && self.tcp_s_ack_recovery is None
        && self.tcp_s_ack_reneging is None
        && self.tcp_s_ack_reorder is None
        && self.tcp_reno_reorder is None
        && self.tcp_ts_reorder is None
        && self.tcp_full_undo is None
        && self.tcp_partial_undo is None
        && self.tcp_ds_ack_undo is None
        && self.tcp_loss_undo is None
        && self.tcp_lost_retransmit is None
        && self.tcp_reno_failures is None
        && self.tcp_s_ack_failures is None
        && self.tcp_loss_failures is None
        && self.tcp_fast_retrans is None
        && self.tcp_slow_start_retrans is None
        && self.tcp_timeouts is None
        && self.tcp_loss_probes is None
        && self.tcp_loss_probe_recovery is None
        && self.tcp_reno_recovery_fail is None
        && self.tcp_s_ack_recovery_fail is None
        && self.tcp_rcv_collapsed is None
        && self.tcp_backlog_coalesce is None
        && self.tcp_ds_ack_old_sent is None
        && self.tcp_ds_ack_ofo_sent is None
        && self.tcp_ds_ack_recv is None
        && self.tcp_ds_ack_ofo_recv is None
        && self.tcp_abort_on_data is None
        && self.tcp_abort_on_close is None
        && self.tcp_abort_on_memory is None
        && self.tcp_abort_on_timeout is None
        && self.tcp_abort_on_linger is None
        && self.tcp_abort_failed is None
        && self.tcp_memory_pressures is None
        && self.tcp_memory_pressures_chrono is None
        && self.tcp_s_ack_discard is None
        && self.tcp_ds_ack_ignored_old is None
        && self.tcp_ds_ack_ignored_no_undo is None
        && self.tcp_spurious_rtos is None
        && self.tcp_md5_not_found is None
        && self.tcp_md5_unexpected is None
        && self.tcp_md5_failure is None
        && self.tcp_s_ack_shifted is None
        && self.tcp_s_ack_merged is None
        && self.tcp_s_ack_shift_fallback is None
        && self.tcp_backlog_drop is None
        && self.pf_memalloc_drop is None
        && self.tcp_min_ttl_drop is None
        && self.tcp_defer_accept_drop is None
        && self.ip_reverse_path_filter is None
        && self.tcp_time_wait_overflow is None
        && self.tcp_req_q_full_do_cookies is None
        && self.tcp_req_q_full_drop is None
        && self.tcp_retrans_fail is None
        && self.tcp_rcv_coalesce is None
        && self.tcp_ofo_queue is None
        && self.tcp_ofo_drop is None
        && self.tcp_ofo_merge is None
        && self.tcp_challenge_ack is None
        && self.tcp_syn_challenge is None
        && self.tcp_fast_open_active is None
        && self.tcp_fast_open_active_fail is None
        && self.tcp_fast_open_passive is None
        && self.tcp_fast_open_passive_fail is None
        && self.tcp_fast_open_listen_overflow is None
        && self.tcp_fast_open_cookie_reqd is None
        && self.tcp_fast_open_blackhole is None
        && self.tcp_spurious_rtx_host_queues is None
        && self.busy_poll_rx_packets is None
        && self.tcp_auto_corking is None
        && self.tcp_from_zero_window_adv is None
        && self.tcp_to_zero_window_adv is None
        && self.tcp_want_zero_window_adv is None
        && self.tcp_syn_retrans is None
        && self.tcp_orig_data_sent is None
        && self.tcp_hystart_train_detect is None
        && self.tcp_hystart_train_cwnd is None
        && self.tcp_hystart_delay_detect is None
        && self.tcp_hystart_delay_cwnd is None
        && self.tcp_ack_skipped_syn_recv is None
        && self.tcp_ack_skipped_paws is None
        && self.tcp_ack_skipped_seq is None
        && self.tcp_ack_skipped_fin_wait2 is None
        && self.tcp_ack_skipped_time_wait is None
        && self.tcp_ack_skipped_challenge is None
        && self.tcp_win_probe is None
        && self.tcp_keep_alive is None
        && self.tcp_mtup_fail is None
        && self.tcp_mtup_success is None
        && self.tcp_delivered is None
        && self.tcp_delivered_ce is None
        && self.tcp_ack_compressed is None
        && self.tcp_zero_window_drop is None
        && self.tcp_rcv_q_drop is None
        && self.tcp_wqueue_too_big is None
        && self.tcp_fast_open_passive_altkey is None
        && self.tcp_timeout_rehash is None
        && self.tcp_duplicate_data_rehash is None
        && self.tcp_ds_ack_recv_segs is None
        && self.tcp_ds_ack_ignored_dubious is None
        && self.tcp_migrate_req_success is None
        && self.tcp_migrate_req_failure is None
        && self.tcp_plb_rehash is None
        && self.tcp_ao_required is None
        && self.tcp_ao_bad is None
        && self.tcp_ao_key_not_found is None
        && self.tcp_ao_good is None
        && self.tcp_ao_dropped_icmps is None
    }

    /// Each counter holds what the `tcpext` rows of the table give it.
    pub open spec fn read_from(&self, rows: Seq<RowView>) -> bool {
        self.syn_cookies_sent == field_value(rows, "tcpext"@, "syncookiessent"@)
        && self.syn_cookies_recv == field_value(rows, "tcpext"@, "syncookiesrecv"@)
        && self.syn_cookies_failed == field_value(rows, "tcpext"@, "syncookiesfailed"@)
        && self.embryonic_rsts == field_value(rows, "tcpext"@, "embryonicrsts"@)
        && self.prune_called == field_value(rows, "tcpext"@, "prunecalled"@)
        && self.rcv_pruned == field_value(rows, "tcpext"@, "rcvpruned"@)
        && self.ofo_pruned == field_value(rows, "tcpext"@, "ofopruned"@)
        && self.out_of_window_icmps == field_value(rows, "tcpext"@, "outofwindowicmps"@)
        && self.lock_dropped_icmps == field_value(rows, "tcpext"@, "lockdroppedicmps"@)
        && self.arp_filter == field_value(rows, "tcpext"@, "arpfilter"@)
        && self.tw == field_value(rows, "tcpext"@, "tw"@)
        && self.tw_recycled == field_value(rows, "tcpext"@, "twrecycled"@)
        && self.tw_killed == field_value(rows, "tcpext"@, "twkilled"@)
        && self.paws_active == field_value(rows, "tcpext"@, "pawsactive"@)
        && self.paws_estab == field_value(rows, "tcpext"@, "pawsestab"@)
        && self.delayed_acks == field_value(rows, "tcpext"@, "delayedacks"@)
        && self.delayed_ack_locked == field_value(rows, "tcpext"@, "delayedacklocked"@)
        && self.delayed_ack_lost == field_value(rows, "tcpext"@, "delayedacklost"@)
        && self.listen_overflows == field_value(rows, "tcpext"@, "listenoverflows"@)
        && self.listen_drops == field_value(rows, "tcpext"@, "listendrops"@)
        && self.tcp_hp_hits == field_value(rows, "tcpext"@, "tcphphits"@)
        && self.tcp_pure_acks == field_value(rows, "tcpext"@, "tcppureacks"@)
        && self.tcp_hp_acks == field_value(rows, "tcpext"@, "tcphpacks"@)
        && self.tcp_reno_recovery == field_value(rows, "tcpext"@, "tcprenorecovery"@)
        && self.tcp_s_ack_recovery == field_value(rows, "tcpext"@, "tcpsackrecovery"@)
        && self.tcp_s_ack_reneging == field_value(rows, "tcpext"@, "tcpsackreneging"@)
        && self.tcp_s_ack_reorder == field_value(rows, "tcpext"@, "tcpsackreorder"@)
        && self.tcp_reno_reorder == field_value(rows, "tcpext"@, "tcprenoreorder"@)
        && self.tcp_ts_reorder == field_value(rows, "tcpext"@, "tcptsreorder"@)
        && self.tcp_full_undo == field_value(rows, "tcpext"@, "tcpfullundo"@)
        && self.tcp_partial_undo == field_value(rows, "tcpext"@, "tcppartialundo"@)
        && self.tcp_ds_ack_undo == field_value(rows, "tcpext"@, "tcpdsackundo"@)
        && self.tcp_loss_undo == field_value(rows, "tcpext"@, "tcplossundo"@)
        && self.tcp_lost_retransmit == field_value(rows, "tcpext"@, "tcplostretransmit"@)
        && self.tcp_reno_failures == field_value(rows, "tcpext"@, "tcprenofailures"@)
        && self.tcp_s_ack_failures == field_value(rows, "tcpext"@, "tcpsackfailures"@)
        && self.tcp_loss_failures == field_value(rows, "tcpext"@, "tcplossfailures"@)
        && self.tcp_fast_retrans == field_value(rows, "tcpext"@, "tcpfastretrans"@)
        && self.tcp_slow_start_retrans == field_value(rows, "tcpext"@, "tcpslowstartretrans"@)
        && self.tcp_timeouts == field_value(rows, "tcpext"@, "tcptimeouts"@)
        && self.tcp_loss_probes == field_value(rows, "tcpext"@, "tcplossprobes"@)
        && self.tcp_loss_probe_recovery == field_value(rows, "tcpext"@, "tcplossproberecovery"@)
        && self.tcp_reno_recovery_fail == field_value(rows, "tcpext"@, "tcprenorecoveryfail"@)
        && self.tcp_s_ack_recovery_fail == field_value(rows, "tcpext"@, "tcpsackrecoveryfail"@)
        && self.tcp_rcv_collapsed == field_value(rows, "tcpext"@, "tcprcvcollapsed"@)
        && self.tcp_backlog_coalesce == field_value(rows, "tcpext"@, "tcpbacklogcoalesce"@)
        && self.tcp_ds_ack_old_sent == field_value(rows, "tcpext"@, "tcpdsackoldsent"@)
        && self.tcp_ds_ack_ofo_sent == field_value(rows, "tcpext"@, "tcpdsackofosent"@)
        && self.tcp_ds_ack_recv == field_value(rows, "tcpext"@, "tcpdsackrecv"@)
        && self.tcp_ds_ack_ofo_recv == field_value(rows, "tcpext"@, "tcpdsackoforecv"@)
        && self.tcp_abort_on_data == field_value(rows, "tcpext"@, "tcpabortondata"@)
        && self.tcp_abort_on_close == field_value(rows, "tcpext"@, "tcpabortonclose"@)
        && self.tcp_abort_on_memory == field_value(rows, "tcpext"@, "tcpabortonmemory"@)
        && self.tcp_abort_on_timeout == field_value(rows, "tcpext"@, "tcpabortontimeout"@)
        && self.tcp_abort_on_linger == field_value(rows, "tcpext"@, "tcpabortonlinger"@)
        && self.tcp_abort_failed == field_value(rows, "tcpext"@, "tcpabortfailed"@)
        && self.tcp_memory_pressures == field_value(rows, "tcpext"@, "tcpmemorypressures"@)
        && self.tcp_memory_pressures_chrono == field_value(rows, "tcpext"@, "tcpmemorypressureschrono"@)
        && self.tcp_s_ack_discard == field_value(rows, "tcpext"@, "tcpsackdiscard"@)
        && self.tcp_ds_ack_ignored_old == field_value(rows, "tcpext"@, "tcpdsackignoredold"@)
        && self.tcp_ds_ack_ignored_no_undo == field_value(rows, "tcpext"@, "tcpdsackignorednoundo"@)
        && self.tcp_spurious_rtos == field_value(rows, "tcpext"@, "tcpspuriousrtos"@)
        && self.tcp_md5_not_found == field_value(rows, "tcpext"@, "tcpmd5notfound"@)
        && self.tcp_md5_unexpected == field_value(rows, "tcpext"@, "tcpmd5unexpected"@)
        && self.tcp_md5_failure == field_value(rows, "tcpext"@, "tcpmd5failure"@)
        && self.tcp_s_ack_shifted == field_value(rows, "tcpext"@, "tcpsackshifted"@)
        && self.tcp_s_ack_merged == field_value(rows, "tcpext"@, "tcpsackmerged"@)
        && self.tcp_s_ack_shift_fallback == field_value(rows, "tcpext"@, "tcpsackshiftfallback"@)
        && self.tcp_backlog_drop == field_value(rows, "tcpext"@, "tcpbacklogdrop"@)
        && self.pf_memalloc_drop == field_value(rows, "tcpext"@, "pfmemallocdrop"@)
        && self.tcp_min_ttl_drop == field_value(rows, "tcpext"@, "tcpminttldrop"@)
        && self.tcp_defer_accept_drop == field_value(rows, "tcpext"@, "tcpdeferacceptdrop"@)
        && self.ip_reverse_path_filter == field_value(rows, "tcpext"@, "ipreversepathfilter"@)
        && self.tcp_time_wait_overflow == field_value(rows, "tcpext"@, "tcptimewaitoverflow"@)
        && self.tcp_req_q_full_do_cookies == field_value(rows, "tcpext"@, "tcpreqqfulldocookies"@)
        && self.tcp_req_q_full_drop == field_value(rows, "tcpext"@, "tcpreqqfulldrop"@)
        && self.tcp_retrans_fail == field_value(rows, "tcpext"@, "tcpretransfail"@)
        && self.tcp_rcv_coalesce == field_value(rows, "tcpext"@, "tcprcvcoalesce"@)
        && self.tcp_ofo_queue == field_value(rows, "tcpext"@, "tcpofoqueue"@)
        && self.tcp_ofo_drop == field_value(rows, "tcpext"@, "tcpofodrop"@)
        && self.tcp_ofo_merge == field_value(rows, "tcpext"@, "tcpofomerge"@)
        && self.tcp_challenge_ack == field_value(rows, "tcpext"@, "tcpchallengeack"@)
        && self.tcp_syn_challenge == field_value(rows, "tcpext"@, "tcpsynchallenge"@)
        && self.tcp_fast_open_active == field_value(rows, "tcpext"@, "tcpfastopenactive"@)
        && self.tcp_fast_open_active_fail == field_value(rows, "tcpext"@, "tcpfastopenactivefail"@)
        && self.tcp_fast_open_passive == field_value(rows, "tcpext"@, "tcpfastopenpassive"@)
        && self.tcp_fast_open_passive_fail == field_value(rows, "tcpext"@, "tcpfastopenpassivefail"@)
        && self.tcp_fast_open_listen_overflow == field_value(rows, "tcpext"@, "tcpfastopenlistenoverflow"@)
        && self.tcp_fast_open_cookie_reqd == field_value(rows, "tcpext"@, "tcpfastopencookiereqd"@)
        && self.tcp_fast_open_blackhole == field_value(rows, "tcpext"@, "tcpfastopenblackhole"@)
        && self.tcp_spurious_rtx_host_queues == field_value(rows, "tcpext"@, "tcpspuriousrtxhostqueues"@)
        && self.busy_poll_rx_packets == field_value(rows, "tcpext"@, "busypollrxpackets"@)
        && self.tcp_auto_corking == field_value(rows, "tcpext"@, "tcpautocorking"@)
        && self.tcp_from_zero_window_adv == field_value(rows, "tcpext"@, "tcpfromzerowindowadv"@)
        && self.tcp_to_zero_window_adv == field_value(rows, "tcpext"@, "tcptozerowindowadv"@)
        && self.tcp_want_zero_window_adv == field_value(rows, "tcpext"@, "tcpwantzerowindowadv"@)
        && self.tcp_syn_retrans == field_value(rows, "tcpext"@, "tcpsynretrans"@)
        && self.tcp_orig_data_sent == field_value(rows, "tcpext"@, "tcporigdatasent"@)
        && self.tcp_hystart_train_detect == field_value(rows, "tcpext"@, "tcphystarttraindetect"@)
        && self.tcp_hystart_train_cwnd == field_value(rows, "tcpext"@, "tcphystarttraincwnd"@)
        && self.tcp_hystart_delay_detect == field_value(rows, "tcpext"@, "tcphystartdelaydetect"@)
        && self.tcp_hystart_delay_cwnd == field_value(rows, "tcpext"@, "tcphystartdelaycwnd"@)
        && self.tcp_ack_skipped_syn_recv == field_value(rows, "tcpext"@, "tcpackskippedsynrecv"@)
        && self.tcp_ack_skipped_paws == field_value(rows, "tcpext"@, "tcpackskippedpaws"@)
        && self.tcp_ack_skipped_seq == field_value(rows, "tcpext"@, "tcpackskippedseq"@)
        && self.tcp_ack_skipped_fin_wait2 == field_value(rows, "tcpext"@, "tcpackskippedfinwait2"@)
        && self.tcp_ack_skipped_time_wait == field_value(rows, "tcpext"@, "tcpackskippedtimewait"@)
        && self.tcp_ack_skipped_challenge == field_value(rows, "tcpext"@, "tcpackskippedchallenge"@)
        && self.tcp_win_probe == field_value(rows, "tcpext"@, "tcpwinprobe"@)
        && self.tcp_keep_alive == field_value(rows, "tcpext"@, "tcpkeepalive"@)
        && self.tcp_mtup_fail == field_value(rows, "tcpext"@, "tcpmtupfail"@)
        && self.tcp_mtup_success == field_value(rows, "tcpext"@, "tcpmtupsuccess"@)
        && self.tcp_delivered == field_value(rows, "tcpext"@, "tcpdelivered"@)
        && self.tcp_delivered_ce == field_value(rows, "tcpext"@, "tcpdeliveredce"@)
        && self.tcp_ack_compressed == field_value(rows, "tcpext"@, "tcpackcompressed"@)
        && self.tcp_zero_window_drop == field_value(rows, "tcpext"@, "tcpzerowindowdrop"@)
        && self.tcp_rcv_q_drop == field_value(rows, "tcpext"@, "tcprcvqdrop"@)
        && self.tcp_wqueue_too_big == field_value(rows, "tcpext"@, "tcpwqueuetoobig"@)
        && self.tcp_fast_open_passive_altkey == field_value(rows, "tcpext"@, "tcpfastopenpassivealtkey"@)
        && self.tcp_timeout_rehash == field_value(rows, "tcpext"@, "tcptimeoutrehash"@)
        && self.tcp_duplicate_data_rehash == field_value(rows, "tcpext"@, "tcpduplicatedatarehash"@)
        && self.tcp_ds_ack_recv_segs == field_value(rows, "tcpext"@, "tcpdsackrecvsegs"@)
        && self.tcp_ds_ack_ignored_dubious == field_value(rows, "tcpext"@, "tcpdsackignoreddubious"@)
        && self.tcp_migrate_req_success == field_value(rows, "tcpext"@, "tcpmigratereqsuccess"@)
        && self.tcp_migrate_req_failure == field_value(rows, "tcpext"@, "tcpmigratereqfailure"@)
        && self.tcp_plb_rehash == field_value(rows, "tcpext"@, "tcpplbrehash"@)
        && self.tcp_ao_required == field_value(rows, "tcpext"@, "tcpaorequired"@)
        && self.tcp_ao_bad == field_value(rows, "tcpext"@, "tcpaobad"@)
        && self.tcp_ao_key_not_found == field_value(rows, "tcpext"@, "tcpaokeynotfound"@)
        && self.tcp_ao_good == field_value(rows, "tcpext"@, "tcpaogood"@)
        && self.tcp_ao_dropped_icmps == field_value(rows, "tcpext"@, "tcpaodroppedicmps"@)
    }

    /// Every counter of the `tcpext` rows that is given has a value that parses.
    pub open spec fn readable(rows: Seq<RowView>) -> bool {
        field_parses(rows, "tcpext"@, "syncookiessent"@)
        && field_parses(rows, "tcpext"@, "syncookiesrecv"@)
        && field_parses(rows, "tcpext"@, "syncookiesfailed"@)
        && field_parses(rows, "tcpext"@, "embryonicrsts"@)
        && field_parses(rows, "tcpext"@, "prunecalled"@)
        && field_parses(rows, "tcpext"@, "rcvpruned"@)
        && field_parses(rows, "tcpext"@, "ofopruned"@)
        && field_parses(rows, "tcpext"@, "outofwindowicmps"@)
        && field_parses(rows, "tcpext"@, "lockdroppedicmps"@)
        && field_parses(rows, "tcpext"@, "arpfilter"@)
        && field_parses(rows, "tcpext"@, "tw"@)
        && field_parses(rows, "tcpext"@, "twrecycled"@)
        && field_parses(rows, "tcpext"@, "twkilled"@)
        && field_parses(rows, "tcpext"@, "pawsactive"@)
        && field_parses(rows, "tcpext"@, "pawsestab"@)
        && field_parses(rows, "tcpext"@, "delayedacks"@)
        && field_parses(rows, "tcpext"@, "delayedacklocked"@)
        && field_parses(rows, "tcpext"@, "delayedacklost"@)
        && field_parses(rows, "tcpext"@, "listenoverflows"@)
        && field_parses(rows, "tcpext"@, "listendrops"@)
        && field_parses(rows, "tcpext"@, "tcphphits"@)
        && field_parses(rows, "tcpext"@, "tcppureacks"@)
        && field_parses(rows, "tcpext"@, "tcphpacks"@)
        && field_parses(rows, "tcpext"@, "tcprenorecovery"@)
        && field_parses(rows, "tcpext"@, "tcpsackrecovery"@)
        && field_parses(rows, "tcpext"@, "tcpsackreneging"@)
        && field_parses(rows, "tcpext"@, "tcpsackreorder"@)
        && field_parses(rows, "tcpext"@, "tcprenoreorder"@)
        && field_parses(rows, "tcpext"@, "tcptsreorder"@)
        && field_parses(rows, "tcpext"@, "tcpfullundo"@)
        && field_parses(rows, "tcpext"@, "tcppartialundo"@)
        && field_parses(rows, "tcpext"@, "tcpdsackundo"@)
        && field_parses(rows, "tcpext"@, "tcplossundo"@)
        && field_parses(rows, "tcpext"@, "tcplostretransmit"@)
        && field_parses(rows, "tcpext"@, "tcprenofailures"@)
        && field_parses(rows, "tcpext"@, "tcpsackfailures"@)
        && field_parses(rows, "tcpext"@, "tcplossfailures"@)
        && field_parses(rows, "tcpext"@, "tcpfastretrans"@)
        && field_parses(rows, "tcpext"@, "tcpslowstartretrans"@)
        && field_parses(rows, "tcpext"@, "tcptimeouts"@)
        && field_parses(rows, "tcpext"@, "tcplossprobes"@)
        && field_parses(rows, "tcpext"@, "tcplossproberecovery"@)
        && field_parses(rows, "tcpext"@, "tcprenorecoveryfail"@)
        && field_parses(rows, "tcpext"@, "tcpsackrecoveryfail"@)
        && field_parses(rows, "tcpext"@, "tcprcvcollapsed"@)
        && field_parses(rows, "tcpext"@, "tcpbacklogcoalesce"@)
        && field_parses(rows, "tcpext"@, "tcpdsackoldsent"@)
        && field_parses(rows, "tcpext"@, "tcpdsackofosent"@)
        && field_parses(rows, "tcpext"@, "tcpdsackrecv"@)
        && field_parses(rows, "tcpext"@, "tcpdsackoforecv"@)
        && field_parses(rows, "tcpext"@, "tcpabortondata"@)
        && field_parses(rows, "tcpext"@, "tcpabortonclose"@)
        && field_parses(rows, "tcpext"@, "tcpabortonmemory"@)
        && field_parses(rows, "tcpext"@, "tcpabortontimeout"@)
        && field_parses(rows, "tcpext"@, "tcpabortonlinger"@)
        && field_parses(rows, "tcpext"@, "tcpabortfailed"@)
        && field_parses(rows, "tcpext"@, "tcpmemorypressures"@)
        && field_parses(rows, "tcpext"@, "tcpmemorypressureschrono"@)
        && field_parses(rows, "tcpext"@, "tcpsackdiscard"@)
        && field_parses(rows, "tcpext"@, "tcpdsackignoredold"@)
        && field_parses(rows, "tcpext"@, "tcpdsackignorednoundo"@)
        && field_parses(rows, "tcpext"@, "tcpspuriousrtos"@)
        && field_parses(rows, "tcpext"@, "tcpmd5notfound"@)
        && field_parses(rows, "tcpext"@, "tcpmd5unexpected"@)
        && field_parses(rows, "tcpext"@, "tcpmd5failure"@)
        && field_parses(rows, "tcpext"@, "tcpsackshifted"@)
        && field_parses(rows, "tcpext"@, "tcpsackmerged"@)
        && field_parses(rows, "tcpext"@, "tcpsackshiftfallback"@)
        && field_parses(rows, "tcpext"@, "tcpbacklogdrop"@)
        && field_parses(rows, "tcpext"@, "pfmemallocdrop"@)
        && field_parses(rows, "tcpext"@, "tcpminttldrop"@)
        && field_parses(rows, "tcpext"@, "tcpdeferacceptdrop"@)
        && field_parses(rows, "tcpext"@, "ipreversepathfilter"@)
        && field_parses(rows, "tcpext"@, "tcptimewaitoverflow"@)
        && field_parses(rows, "tcpext"@, "tcpreqqfulldocookies"@)
        && field_parses(rows, "tcpext"@, "tcpreqqfulldrop"@)
        && field_parses(rows, "tcpext"@, "tcpretransfail"@)
        && field_parses(rows, "tcpext"@, "tcprcvcoalesce"@)
        && field_parses(rows, "tcpext"@, "tcpofoqueue"@)
        && field_parses(rows, "tcpext"@, "tcpofodrop"@)
        && field_parses(rows, "tcpext"@, "tcpofomerge"@)
        && field_parses(rows, "tcpext"@, "tcpchallengeack"@)
        && field_parses(rows, "tcpext"@, "tcpsynchallenge"@)
        && field_parses(rows, "tcpext"@, "tcpfastopenactive"@)
        && field_parses(rows, "tcpext"@, "tcpfastopenactivefail"@)
        && field_parses(rows, "tcpext"@, "tcpfastopenpassive"@)
        && field_parses(rows, "tcpext"@, "tcpfastopenpassivefail"@)
        && field_parses(rows, "tcpext"@, "tcpfastopenlistenoverflow"@)
        && field_parses(rows, "tcpext"@, "tcpfastopencookiereqd"@)
        && field_parses(rows, "tcpext"@, "tcpfastopenblackhole"@)
        && field_parses(rows, "tcpext"@, "tcpspuriousrtxhostqueues"@)
        && field_parses(rows, "tcpext"@, "busypollrxpackets"@)
        && field_parses(rows, "tcpext"@, "tcpautocorking"@)
        && field_parses(rows, "tcpext"@, "tcpfromzerowindowadv"@)
        && field_parses(rows, "tcpext"@, "tcptozerowindowadv"@)
        && field_parses(rows, "tcpext"@, "tcpwantzerowindowadv"@)
        && field_parses(rows, "tcpext"@, "tcpsynretrans"@)
        && field_parses(rows, "tcpext"@, "tcporigdatasent"@)
        && field_parses(rows, "tcpext"@, "tcphystarttraindetect"@)
        && field_parses(rows, "tcpext"@, "tcphystarttraincwnd"@)
        && field_parses(rows, "tcpext"@, "tcphystartdelaydetect"@)
        && field_parses(rows, "tcpext"@, "tcphystartdelaycwnd"@)
        && field_parses(rows, "tcpext"@, "tcpackskippedsynrecv"@)
        && field_parses(rows, "tcpext"@, "tcpackskippedpaws"@)
        && field_parses(rows, "tcpext"@, "tcpackskippedseq"@)
        && field_parses(rows, "tcpext"@, "tcpackskippedfinwait2"@)
        && field_parses(rows, "tcpext"@, "tcpackskippedtimewait"@)
        && field_parses(rows, "tcpext"@, "tcpackskippedchallenge"@)
        && field_parses(rows, "tcpext"@, "tcpwinprobe"@)
        && field_parses(rows, "tcpext"@, "tcpkeepalive"@)
        && field_parses(rows, "tcpext"@, "tcpmtupfail"@)
        && field_parses(rows, "tcpext"@, "tcpmtupsuccess"@)
        && field_parses(rows, "tcpext"@, "tcpdelivered"@)
        && field_parses(rows, "tcpext"@, "tcpdeliveredce"@)
        && field_parses(rows, "tcpext"@, "tcpackcompressed"@)
        && field_parses(rows, "tcpext"@, "tcpzerowindowdrop"@)
        && field_parses(rows, "tcpext"@, "tcprcvqdrop"@)
        && field_parses(rows, "tcpext"@, "tcpwqueuetoobig"@)
        && field_parses(rows, "tcpext"@, "tcpfastopenpassivealtkey"@)
        && field_parses(rows, "tcpext"@, "tcptimeoutrehash"@)
        && field_parses(rows, "tcpext"@, "tcpduplicatedatarehash"@)
        && field_parses(rows, "tcpext"@, "tcpdsackrecvsegs"@)
        && field_parses(rows, "tcpext"@, "tcpdsackignoreddubious"@)
        && field_parses(rows, "tcpext"@, "tcpmigratereqsuccess"@)
        && field_parses(rows, "tcpext"@, "tcpmigratereqfailure"@)
        && field_parses(rows, "tcpext"@, "tcpplbrehash"@)
        && field_parses(rows, "tcpext"@, "tcpaorequired"@)
        && field_parses(rows, "tcpext"@, "tcpaobad"@)
        && field_parses(rows, "tcpext"@, "tcpaokeynotfound"@)
        && field_parses(rows, "tcpext"@, "tcpaogood"@)
        && field_parses(rows, "tcpext"@, "tcpaodroppedicmps"@)
    }

    pub fn new() -> (r: Self)
        ensures
            r.is_blank(),
    {
        TcpExt {
            syn_cookies_sent: None,
            syn_cookies_recv: None,
            syn_cookies_failed: None,
            embryonic_rsts: None,
            prune_called: None,
            rcv_pruned: None,
            ofo_pruned: None,
            out_of_window_icmps: None,
            lock_dropped_icmps: None,
            arp_filter: None,
            tw: None,
            tw_recycled: None,
            tw_killed: None,
            paws_active: None,
            paws_estab: None,
            delayed_acks: None,
            delayed_ack_locked: None,
            delayed_ack_lost: None,
            listen_overflows: None,
            listen_drops: None,
            tcp_hp_hits: None,
            tcp_pure_acks: None,
            tcp_hp_acks: None,
            tcp_reno_recovery: None,
            tcp_s_ack_recovery: None,
            tcp_s_ack_reneging: None,
            tcp_s_ack_reorder: None,
            tcp_reno_reorder: None,
            tcp_ts_reorder: None,
            tcp_full_undo: None,
            tcp_partial_undo: None,
            tcp_ds_ack_undo: None,
            tcp_loss_undo: None,
            tcp_lost_retransmit: None,
            tcp_reno_failures: None,
            tcp_s_ack_failures: None,
            tcp_loss_failures: None,
            tcp_fast_retrans: None,
            tcp_slow_start_retrans: None,
            tcp_timeouts: None,
            tcp_loss_probes: None,
            tcp_loss_probe_recovery: None,
            tcp_reno_recovery_fail: None,
            tcp_s_ack_recovery_fail: None,
            tcp_rcv_collapsed: None,
            tcp_backlog_coalesce: None,
            tcp_ds_ack_old_sent: None,
            tcp_ds_ack_ofo_sent: None,
            tcp_ds_ack_recv: None,
            tcp_ds_ack_ofo_recv: None,
            tcp_abort_on_data: None,
            tcp_abort_on_close: None,
            tcp_abort_on_memory: None,
            tcp_abort_on_timeout: None,
            tcp_abort_on_linger: None,
            tcp_abort_failed: None,
            tcp_memory_pressures: None,
            tcp_memory_pressures_chrono: None,
            tcp_s_ack_discard: None,
            tcp_ds_ack_ignored_old: None,
            tcp_ds_ack_ignored_no_undo: None,
            tcp_spurious_rtos: None,
            tcp_md5_not_found: None,
            tcp_md5_unexpected: None,
            tcp_md5_failure: None,
            tcp_s_ack_shifted: None,
            tcp_s_ack_merged: None,
            tcp_s_ack_shift_fallback: None,
            tcp_backlog_drop: None,
            pf_memalloc_drop: None,
            tcp_min_ttl_drop: None,
            tcp_defer_accept_drop: None,
            ip_reverse_path_filter: None,
            tcp_time_wait_overflow: None,
            tcp_req_q_full_do_cookies: None,
            tcp_req_q_full_drop: None,
            tcp_retrans_fail: None,
            tcp_rcv_coalesce: None,
            tcp_ofo_queue: None,
            tcp_ofo_drop: None,
            tcp_ofo_merge: None,
            tcp_challenge_ack: None,
            tcp_syn_challenge: None,
            tcp_fast_open_active: None,
            tcp_fast_open_active_fail: None,
            tcp_fast_open_passive: None,
            tcp_fast_open_passive_fail: None,
            tcp_fast_open_listen_overflow: None,
            tcp_fast_open_cookie_reqd: None,
            tcp_fast_open_blackhole: None,
            tcp_spurious_rtx_host_queues: None,
            busy_poll_rx_packets: None,
            tcp_auto_corking: None,
            tcp_from_zero_window_adv: None,
            tcp_to_zero_window_adv: None,
            tcp_want_zero_window_adv: None,
            tcp_syn_retrans: None,
            tcp_orig_data_sent: None,
            tcp_hystart_train_detect: None,
            tcp_hystart_train_cwnd: None,
            tcp_hystart_delay_detect: None,
            tcp_hystart_delay_cwnd: None,
            tcp_ack_skipped_syn_recv: None,
            tcp_ack_skipped_paws: None,
            tcp_ack_skipped_seq: None,
            tcp_ack_skipped_fin_wait2: None,
            tcp_ack_skipped_time_wait: None,
            tcp_ack_skipped_challenge: None,
            tcp_win_probe: None,
            tcp_keep_alive: None,
            tcp_mtup_fail: None,
            tcp_mtup_success: None,
            tcp_delivered: None,
            tcp_delivered_ce: None,
            tcp_ack_compressed: None,
            tcp_zero_window_drop: None,
            tcp_rcv_q_drop: None,
            tcp_wqueue_too_big: None,
            tcp_fast_open_passive_altkey: None,
            tcp_timeout_rehash: None,
            tcp_duplicate_data_rehash: None,
            tcp_ds_ack_recv_segs: None,
            tcp_ds_ack_ignored_dubious: None,
            tcp_migrate_req_success: None,
            tcp_migrate_req_failure: None,
            tcp_plb_rehash: None,
            tcp_ao_required: None,
            tcp_ao_bad: None,
            tcp_ao_key_not_found: None,
            tcp_ao_good: None,
            tcp_ao_dropped_icmps: None,
        }
    }

    /// The counters of the `tcpext` rows of a table.
    #[verifier::rlimit(50)]
    pub fn from_rows(rows: &Vec<StatRow>) -> (r: Result<Self, MetricError>)
        ensures
            r is Ok <==> Self::readable(rows_view(rows@)),
            r is Ok ==> r->Ok_0.read_from(rows_view(rows@)),
    {
        let section = chars_of("tcpext");
        let syn_cookies_sent = match read_field(rows, &section, "syncookiessent") {
            Ok(v) => v,
            Err(e) => return Err(e),
        };
        let syn_cookies_recv = match read_field(rows, &section, "syncookiesrecv") {
            Ok(v) => v,
            Err(e) => return Err(e),
        };
        let syn_cookies_failed = match read_field(rows, &section, "syncookiesfailed") {
            Ok(v) => v,
            Err(e) => return Err(e),
        };
        let embryonic_rsts = match read_field(rows, &section, "embryonicrsts") {
            Ok(v) => v,
            Err(e) => return Err(e),
        };
        let prune_called = match read_field(rows, &section, "prunecalled") {
            Ok(v) => v,
            Err(e) => return Err(e),
        };
        let rcv_pruned = match read_field(rows, &section, "rcvpruned") {
            Ok(v) => v,
            Err(e) => return Err(e),
        };
        let ofo_pruned = match read_field(rows, &section, "ofopruned") {
            Ok(v) => v,
            Err(e) => return Err(e),
        };
        let out_of_window_icmps = match read_field(rows, &section, "outofwindowicmps") {
            Ok(v) => v,
            Err(e) => return Err(e),
        };
        let lock_dropped_icmps = match read_field(rows, &section, "lockdroppedicmps") {
            Ok(v) => v,
            Err(e) => return Err(e),
        };
        let arp_filter = match read_field(rows, &section, "arpfilter") {
            Ok(v) => v,
            Err(e) => return Err(e),
        };
        let tw = match read_field(rows, &section, "tw") {
            Ok(v) => v,
            Err(e) => return Err(e),
        };
        let tw_recycled = match read_field(rows, &section, "twrecycled") {
            Ok(v) => v,
            Err(e) => return Err(e),
        };
        let tw_killed = match read_field(rows, &section, "twkilled") {
            Ok(v) => v,
            Err(e) => return Err(e),
        };
        let paws_active = match read_field(rows, &section, "pawsactive") {
            Ok(v) => v,
            Err(e) => return Err(e),
        };
        let paws_estab = match read_field(rows, &section, "pawsestab") {
            Ok(v) => v,
            Err(e) => return Err(e),
        };
        let delayed_acks = match read_field(rows, &section, "delayedacks") {
            Ok(v) => v,
            Err(e) => return Err(e),
        };
        let delayed_ack_locked = match read_field(rows, &section, "delayedacklocked") {
            Ok(v) => v,
            Err(e) => return Err(e),
        };
        let delayed_ack_lost = match read_field(rows, &section, "delayedacklost") {
            Ok(v) => v,
            Err(e) => return Err(e),
        };
        let listen_overflows = match read_field(rows, &section, "listenoverflows") {
            Ok(v) => v,
            Err(e) => return Err(e),
        };
        let listen_drops = match read_field(rows, &section, "listendrops") {
            Ok(v) => v,
            Err(e) => return Err(e),
        };
        let tcp_hp_hits = match read_field(rows, &section, "tcphphits") {
            Ok(v) => v,
            Err(e) => return Err(e),
        };
        let tcp_pure_acks = match read_field(rows, &section, "tcppureacks") {
            Ok(v) => v,
            Err(e) => return Err(e),
        };
        let tcp_hp_acks = match read_field(rows, &section, "tcphpacks") {
            Ok(v) => v,
            Err(e) => return Err(e),
        };
        let tcp_reno_recovery = match read_field(rows, &section, "tcprenorecovery") {
            Ok(v) => v,
            Err(e) => return Err(e),
        };
        let tcp_s_ack_recovery = match read_field(rows, &section, "tcpsackrecovery") {
            Ok(v) => v,
            Err(e) => return Err(e),
        };
        let tcp_s_ack_reneging = match read_field(rows, &section, "tcpsackreneging") {
            Ok(v) => v,
            Err(e) => return Err(e),
        };
        let tcp_s_ack_reorder = match read_field(rows, &section, "tcpsackreorder") {
            Ok(v) => v,
            Err(e) => return Err(e),
        };
        let tcp_reno_reorder = match read_field(rows, &section, "tcprenoreorder") {
            Ok(v) => v,
            Err(e) => return Err(e),
        };
        let tcp_ts_reorder = match read_field(rows, &section, "tcptsreorder") {
            Ok(v) => v,
            Err(e) => return Err(e),
        };
        let tcp_full_undo = match read_field(rows, &section, "tcpfullundo") {
            Ok(v) => v,
            Err(e) => return Err(e),
        };
        let tcp_partial_undo = match read_field(rows, &section, "tcppartialundo") {
            Ok(v) => v,
            Err(e) => return Err(e),
        };
        let tcp_ds_ack_undo = match read_field(rows, &section, "tcpdsackundo") {
            Ok(v) => v,
            Err(e) => return Err(e),
        };
        let tcp_loss_undo = match read_field(rows, &section, "tcplossundo") {
            Ok(v) => v,
            Err(e) => return Err(e),
        };
        let tcp_lost_retransmit = match read_field(rows, &section, "tcplostretransmit") {
            Ok(v) => v,
            Err(e) => return Err(e),
        };
        let tcp_reno_failures = match read_field(rows, &section, "tcprenofailures") {
            Ok(v) => v,
            Err(e) => return Err(e),
        };
        let tcp_s_ack_failures = match read_field(rows, &section, "tcpsackfailures") {
            Ok(v) => v,
            Err(e) => return Err(e),
        };
        let tcp_loss_failures = match read_field(rows, &section, "tcplossfailures") {
            Ok(v) => v,
            Err(e) => return Err(e),
        };
        let tcp_fast_retrans = match read_field(rows, &section, "tcpfastretrans") {
            Ok(v) => v,
            Err(e) => return Err(e),
        };
        let tcp_slow_start_retrans = match read_field(rows, &section, "tcpslowstartretrans") {
            Ok(v) => v,
            Err(e) => return Err(e),
        };
        let tcp_timeouts = match read_field(rows, &section, "tcptimeouts") {
            Ok(v) => v,
            Err(e) => return Err(e),
        };
        let tcp_loss_probes = match read_field(rows, &section, "tcplossprobes") {
            Ok(v) => v,
            Err(e) => return Err(e),
        };
        let tcp_loss_probe_recovery = match read_field(rows, &section, "tcplossproberecovery") {
            Ok(v) => v,
            Err(e) => return Err(e),
        };
        let tcp_reno_recovery_fail = match read_field(rows, &section, "tcprenorecoveryfail") {
            Ok(v) => v,
            Err(e) => return Err(e),
        };
        let tcp_s_ack_recovery_fail = match read_field(rows, &section, "tcpsackrecoveryfail") {
            Ok(v) => v,
            Err(e) => return Err(e),
        };
        let tcp_rcv_collapsed = match read_field(rows, &section, "tcprcvcollapsed") {
            Ok(v) => v,
            Err(e) => return Err(e),
        };
        let tcp_backlog_coalesce = match read_field(rows, &section, "tcpbacklogcoalesce") {
            Ok(v) => v,
            Err(e) => return Err(e),
        };
        let tcp_ds_ack_old_sent = match read_field(rows, &section, "tcpdsackoldsent") {
            Ok(v) => v,
            Err(e) => return Err(e),
        };
        let tcp_ds_ack_ofo_sent = match read_field(rows, &section, "tcpdsackofosent") {
            Ok(v) => v,
            Err(e) => return Err(e),
        };
        let tcp_ds_ack_recv = match read_field(rows, &section, "tcpdsackrecv") {
            Ok(v) => v,
            Err(e) => return Err(e),
        };
        let tcp_ds_ack_ofo_recv = match read_field(rows, &section, "tcpdsackoforecv") {
            Ok(v) => v,
            Err(e) => return Err(e),
        };
        let tcp_abort_on_data = match read_field(rows, &section, "tcpabortondata") {
            Ok(v) => v,
            Err(e) => return Err(e),
        };
        let tcp_abort_on_close = match read_field(rows, &section, "tcpabortonclose") {
            Ok(v) => v,
            Err(e) => return Err(e),
        };
        let tcp_abort_on_memory = match read_field(rows, &section, "tcpabortonmemory") {
            Ok(v) => v,
            Err(e) => return Err(e),
        };
        let tcp_abort_on_timeout = match read_field(rows, &section, "tcpabortontimeout") {
            Ok(v) => v,
            Err(e) => return Err(e),
        };
        let tcp_abort_on_linger = match read_field(rows, &section, "tcpabortonlinger") {
            Ok(v) => v,
            Err(e) => return Err(e),
        };
        let tcp_abort_failed = match read_field(rows, &section, "tcpabortfailed") {
            Ok(v) => v,
            Err(e) => return Err(e),
        };
        let tcp_memory_pressures = match read_field(rows, &section, "tcpmemorypressures") {
            Ok(v) => v,
            Err(e) => return Err(e),
        };
        let tcp_memory_pressures_chrono = match read_field(rows, &section, "tcpmemorypressureschrono") {
            Ok(v) => v,
            Err(e) => return Err(e),
        };
        let tcp_s_ack_discard = match read_field(rows, &section, "tcpsackdiscard") {
            Ok(v) => v,
            Err(e) => return Err(e),
        };
        let tcp_ds_ack_ignored_old = match read_field(rows, &section, "tcpdsackignoredold") {
            Ok(v) => v,
            Err(e) => return Err(e),
        };
        let tcp_ds_ack_ignored_no_undo = match read_field(rows, &section, "tcpdsackignorednoundo") {
            Ok(v) => v,
            Err(e) => return Err(e),
        };
        let tcp_spurious_rtos = match read_field(rows, &section, "tcpspuriousrtos") {
            Ok(v) => v,
            Err(e) => return Err(e),
        };
        let tcp_md5_not_found = match read_field(rows, &section, "tcpmd5notfound") {
            Ok(v) => v,
            Err(e) => return Err(e),
        };
        let tcp_md5_unexpected = match read_field(rows, &section, "tcpmd5unexpected") {
            Ok(v) => v,
            Err(e) => return Err(e),
        };
        let tcp_md5_failure = match read_field(rows, &section, "tcpmd5failure") {
            Ok(v) => v,
            Err(e) => return Err(e),
        };
        let tcp_s_ack_shifted = match read_field(rows, &section, "tcpsackshifted") {
            Ok(v) => v,
            Err(e) => return Err(e),
        };
        let tcp_s_ack_merged = match read_field(rows, &section, "tcpsackmerged") {
            Ok(v) => v,
            Err(e) => return Err(e),
        };
        let tcp_s_ack_shift_fallback = match read_field(rows, &section, "tcpsackshiftfallback") {
            Ok(v) => v,
            Err(e) => return Err(e),
        };
        let tcp_backlog_drop = match read_field(rows, &section, "tcpbacklogdrop") {
            Ok(v) => v,
            Err(e) => return Err(e),
        };
        let pf_memalloc_drop = match read_field(rows, &section, "pfmemallocdrop") {
            Ok(v) => v,
            Err(e) => return Err(e),
        };
        let tcp_min_ttl_drop = match read_field(rows, &section, "tcpminttldrop") {
            Ok(v) => v,
            Err(e) => return Err(e),
        };
        let tcp_defer_accept_drop = match read_field(rows, &section, "tcpdeferacceptdrop") {
            Ok(v) => v,
            Err(e) => return Err(e),
        };
        let ip_reverse_path_filter = match read_field(rows, &section, "ipreversepathfilter") {
            Ok(v) => v,
            Err(e) => return Err(e),
        };
        let tcp_time_wait_overflow = match read_field(rows, &section, "tcptimewaitoverflow") {
            Ok(v) => v,
            Err(e) => return Err(e),
        };
        let tcp_req_q_full_do_cookies = match read_field(rows, &section, "tcpreqqfulldocookies") {
            Ok(v) => v,
            Err(e) => return Err(e),
        };
        let tcp_req_q_full_drop = match read_field(rows, &section, "tcpreqqfulldrop") {
            Ok(v) => v,
            Err(e) => return Err(e),
        };
        let tcp_retrans_fail = match read_field(rows, &section, "tcpretransfail") {
            Ok(v) => v,
            Err(e) => return Err(e),
        };
        let tcp_rcv_coalesce = match read_field(rows, &section, "tcprcvcoalesce") {
            Ok(v) => v,
            Err(e) => return Err(e),
        };
        let tcp_ofo_queue = match read_field(rows, &section, "tcpofoqueue") {
            Ok(v) => v,
            Err(e) => return Err(e),
        };
        let tcp_ofo_drop = match read_field(rows, &section, "tcpofodrop") {
            Ok(v) => v,
            Err(e) => return Err(e),
        };
        let tcp_ofo_merge = match read_field(rows, &section, "tcpofomerge") {
            Ok(v) => v,
            Err(e) => return Err(e),
        };
        let tcp_challenge_ack = match read_field(rows, &section, "tcpchallengeack") {
            Ok(v) => v,
            Err(e) => return Err(e),
        };
        let tcp_syn_challenge = match read_field(rows, &section, "tcpsynchallenge") {
            Ok(v) => v,
            Err(e) => return Err(e),
        };
        let tcp_fast_open_active = match read_field(rows, &section, "tcpfastopenactive") {
            Ok(v) => v,
            Err(e) => return Err(e),
        };
        let tcp_fast_open_active_fail = match read_field(rows, &section, "tcpfastopenactivefail") {
            Ok(v) => v,
            Err(e) => return Err(e),
        };
        let tcp_fast_open_passive = match read_field(rows, &section, "tcpfastopenpassive") {
            Ok(v) => v,
            Err(e) => return Err(e),
        };
        let tcp_fast_open_passive_fail = match read_field(rows, &section, "tcpfastopenpassivefail") {
            Ok(v) => v,
            Err(e) => return Err(e),
        };
        let tcp_fast_open_listen_overflow = match read_field(rows, &section, "tcpfastopenlistenoverflow") {
            Ok(v) => v,
            Err(e) => return Err(e),
        };
        let tcp_fast_open_cookie_reqd = match read_field(rows, &section, "tcpfastopencookiereqd") {
            Ok(v) => v,
            Err(e) => return Err(e),
        };
        let tcp_fast_open_blackhole = match read_field(rows, &section, "tcpfastopenblackhole") {
            Ok(v) => v,
            Err(e) => return Err(e),
        };
        let tcp_spurious_rtx_host_queues = match read_field(rows, &section, "tcpspuriousrtxhostqueues") {
            Ok(v) => v,
            Err(e) => return Err(e),
        };
        let busy_poll_rx_packets = match read_field(rows, &section, "busypollrxpackets") {
            Ok(v) => v,
            Err(e) => return Err(e),
        };
        let tcp_auto_corking = match read_field(rows, &section, "tcpautocorking") {
            Ok(v) => v,
            Err(e) => return Err(e),
        };
        let tcp_from_zero_window_adv = match read_field(rows, &section, "tcpfromzerowindowadv") {
            Ok(v) => v,
            Err(e) => return Err(e),
        };
        let tcp_to_zero_window_adv = match read_field(rows, &section, "tcptozerowindowadv") {
            Ok(v) => v,
            Err(e) => return Err(e),
        };
        let tcp_want_zero_window_adv = match read_field(rows, &section, "tcpwantzerowindowadv") {
            Ok(v) => v,
            Err(e) => return Err(e),
        };
        let tcp_syn_retrans = match read_field(rows, &section, "tcpsynretrans") {
            Ok(v) => v,
            Err(e) => return Err(e),
        };
        let tcp_orig_data_sent = match read_field(rows, &section, "tcporigdatasent") {
            Ok(v) => v,
            Err(e) => return Err(e),
        };
        let tcp_hystart_train_detect = match read_field(rows, &section, "tcphystarttraindetect") {
            Ok(v) => v,
            Err(e) => return Err(e),
        };
        let tcp_hystart_train_cwnd = match read_field(rows, &section, "tcphystarttraincwnd") {
            Ok(v) => v,
            Err(e) => return Err(e),
        };
        let tcp_hystart_delay_detect = match read_field(rows, &section, "tcphystartdelaydetect") {
            Ok(v) => v,
            Err(e) => return Err(e),
        };
        let tcp_hystart_delay_cwnd = match read_field(rows, &section, "tcphystartdelaycwnd") {
            Ok(v) => v,
            Err(e) => return Err(e),
        };
        let tcp_ack_skipped_syn_recv = match read_field(rows, &section, "tcpackskippedsynrecv") {
            Ok(v) => v,
            Err(e) => return Err(e),
        };
        let tcp_ack_skipped_paws = match read_field(rows, &section, "tcpackskippedpaws") {
            Ok(v) => v,
            Err(e) => return Err(e),
        };
        let tcp_ack_skipped_seq = match read_field(rows, &section, "tcpackskippedseq") {
            Ok(v) => v,
            Err(e) => return Err(e),
        };
        let tcp_ack_skipped_fin_wait2 = match read_field(rows, &section, "tcpackskippedfinwait2") {
            Ok(v) => v,
            Err(e) => return Err(e),
        };
        let tcp_ack_skipped_time_wait = match read_field(rows, &section, "tcpackskippedtimewait") {
            Ok(v) => v,
            Err(e) => return Err(e),
        };
        let tcp_ack_skipped_challenge = match read_field(rows, &section, "tcpackskippedchallenge") {
            Ok(v) => v,
            Err(e) => return Err(e),
        };
        let tcp_win_probe = match read_field(rows, &section, "tcpwinprobe") {
            Ok(v) => v,
            Err(e) => return Err(e),
        };
        let tcp_keep_alive = match read_field(rows, &section, "tcpkeepalive") {
            Ok(v) => v,
            Err(e) => return Err(e),
        };
        let tcp_mtup_fail = match read_field(rows, &section, "tcpmtupfail") {
            Ok(v) => v,
            Err(e) => return Err(e),
        };
        let tcp_mtup_success = match read_field(rows, &section, "tcpmtupsuccess") {
            Ok(v) => v,
            Err(e) => return Err(e),
        };
        let tcp_delivered = match read_field(rows, &section, "tcpdelivered") {
            Ok(v) => v,
            Err(e) => return Err(e),
        };
        let tcp_delivered_ce = match read_field(rows, &section, "tcpdeliveredce") {
            Ok(v) => v,
            Err(e) => return Err(e),
        };
        let tcp_ack_compressed = match read_field(rows, &section, "tcpackcompressed") {
            Ok(v) => v,
            Err(e) => return Err(e),
        };
        let tcp_zero_window_drop = match read_field(rows, &section, "tcpzerowindowdrop") {
            Ok(v) => v,
            Err(e) => return Err(e),
        };
        let tcp_rcv_q_drop = match read_field(rows, &section, "tcprcvqdrop") {
            Ok(v) => v,
            Err(e) => return Err(e),
        };
        let tcp_wqueue_too_big = match read_field(rows, &section, "tcpwqueuetoobig") {
            Ok(v) => v,
            Err(e) => return Err(e),
        };
        let tcp_fast_open_passive_altkey = match read_field(rows, &section, "tcpfastopenpassivealtkey") {
            Ok(v) => v,
            Err(e) => return Err(e),
        };
        let tcp_timeout_rehash = match read_field(rows, &section, "tcptimeoutrehash") {
            Ok(v) => v,
            Err(e) => return Err(e),
        };
        let tcp_duplicate_data_rehash = match read_field(rows, &section, "tcpduplicatedatarehash") {
            Ok(v) => v,
            Err(e) => return Err(e),
        };
        let tcp_ds_ack_recv_segs = match read_field(rows, &section, "tcpdsackrecvsegs") {
            Ok(v) => v,
            Err(e) => return Err(e),
        };
        let tcp_ds_ack_ignored_dubious = match read_field(rows, &section, "tcpdsackignoreddubious") {
            Ok(v) => v,
            Err(e) => return Err(e),
        };
        let tcp_migrate_req_success = match read_field(rows, &section, "tcpmigratereqsuccess") {
            Ok(v) => v,
            Err(e) => return Err(e),
        };
        let tcp_migrate_req_failure = match read_field(rows, &section, "tcpmigratereqfailure") {
            Ok(v) => v,
            Err(e) => return Err(e),
        };
        let tcp_plb_rehash = match read_field(rows, &section, "tcpplbrehash") {
            Ok(v) => v,
            Err(e) => return Err(e),
        };
        let tcp_ao_required = match read_field(rows, &section, "tcpaorequired") {
            Ok(v) => v,
            Err(e) => return Err(e),
        };
        let tcp_ao_bad = match read_field(rows, &section, "tcpaobad") {
            Ok(v) => v,
            Err(e) => return Err(e),
        };
        let tcp_ao_key_not_found = match read_field(rows, &section, "tcpaokeynotfound") {
            Ok(v) => v,
            Err(e) => return Err(e),
        };
        let tcp_ao_good = match read_field(rows, &section, "tcpaogood") {
            Ok(v) => v,
            Err(e) => return Err(e),
        };
        let tcp_ao_dropped_icmps = match read_field(rows, &section, "tcpaodroppedicmps") {
            Ok(v) => v,
            Err(e) => return Err(e),
        };
        Ok(TcpExt {
            syn_cookies_sent,
            syn_cookies_recv,
            syn_cookies_failed,
            embryonic_rsts,
            prune_called,
            rcv_pruned,
            ofo_pruned,
            out_of_window_icmps,
            lock_dropped_icmps,
            arp_filter,
            tw,
            tw_recycled,
            tw_killed,
            paws_active,
            paws_estab,
            delayed_acks,
            delayed_ack_locked,
            delayed_ack_lost,
            listen_overflows,
            listen_drops,
            tcp_hp_hits,
            tcp_pure_acks,
            tcp_hp_acks,
            tcp_reno_recovery,
            tcp_s_ack_recovery,
            tcp_s_ack_reneging,
            tcp_s_ack_reorder,
            tcp_reno_reorder,
            tcp_ts_reorder,
            tcp_full_undo,
            tcp_partial_undo,
            tcp_ds_ack_undo,
            tcp_loss_undo,
            tcp_lost_retransmit,
            tcp_reno_failures,
            tcp_s_ack_failures,
            tcp_loss_failures,
            tcp_fast_retrans,
            tcp_slow_start_retrans,
            tcp_timeouts,
            tcp_loss_probes,
            tcp_loss_probe_recovery,
            tcp_reno_recovery_fail,
            tcp_s_ack_recovery_fail,
            tcp_rcv_collapsed,
            tcp_backlog_coalesce,
            tcp_ds_ack_old_sent,
            tcp_ds_ack_ofo_sent,
            tcp_ds_ack_recv,
            tcp_ds_ack_ofo_recv,
            tcp_abort_on_data,
            tcp_abort_on_close,
            tcp_abort_on_memory,
            tcp_abort_on_timeout,
            tcp_abort_on_linger,
            tcp_abort_failed,
            tcp_memory_pressures,
            tcp_memory_pressures_chrono,
            tcp_s_ack_discard,
            tcp_ds_ack_ignored_old,
            tcp_ds_ack_ignored_no_undo,
            tcp_spurious_rtos,
            tcp_md5_not_found,
            tcp_md5_unexpected,
            tcp_md5_failure,
            tcp_s_ack_shifted,
            tcp_s_ack_merged,
            tcp_s_ack_shift_fallback,
            tcp_backlog_drop,
            pf_memalloc_drop,
            tcp_min_ttl_drop,
            tcp_defer_accept_drop,
            ip_reverse_path_filter,
            tcp_time_wait_overflow,
            tcp_req_q_full_do_cookies,
            tcp_req_q_full_drop,
            tcp_retrans_fail,
            tcp_rcv_coalesce,
            tcp_ofo_queue,
            tcp_ofo_drop,
            tcp_ofo_merge,
            tcp_challenge_ack,
            tcp_syn_challenge,
            tcp_fast_open_active,
            tcp_fast_open_active_fail,
            tcp_fast_open_passive,
            tcp_fast_open_passive_fail,
            tcp_fast_open_listen_overflow,
            tcp_fast_open_cookie_reqd,
            tcp_fast_open_blackhole,
            tcp_spurious_rtx_host_queues,
            busy_poll_rx_packets,
            tcp_auto_corking,
            tcp_from_zero_window_adv,
            tcp_to_zero_window_adv,
            tcp_want_zero_window_adv,
            tcp_syn_retrans,
            tcp_orig_data_sent,
            tcp_hystart_train_detect,
            tcp_hystart_train_cwnd,
            tcp_hystart_delay_detect,
            tcp_hystart_delay_cwnd,
            tcp_ack_skipped_syn_recv,
            tcp_ack_skipped_paws,
            tcp_ack_skipped_seq,
            tcp_ack_skipped_fin_wait2,
            tcp_ack_skipped_time_wait,
            tcp_ack_skipped_challenge,
            tcp_win_probe,
            tcp_keep_alive,
            tcp_mtup_fail,
            tcp_mtup_success,
            tcp_delivered,
            tcp_delivered_ce,
            tcp_ack_compressed,
            tcp_zero_window_drop,
            tcp_rcv_q_drop,
            tcp_wqueue_too_big,
            tcp_fast_open_passive_altkey,
            tcp_timeout_rehash,
            tcp_duplicate_data_rehash,
            tcp_ds_ack_recv_segs,
            tcp_ds_ack_ignored_dubious,
            tcp_migrate_req_success,
            tcp_migrate_req_failure,
            tcp_plb_rehash,
            tcp_ao_required,
            tcp_ao_bad,
            tcp_ao_key_not_found,
            tcp_ao_good,
            tcp_ao_dropped_icmps,
        })
    }
}

/// The `IpExt` section: extended IP counters.
#[derive(Debug, Clone)]
pub struct IpExt {
    pub in_no_routes: Option<i64>,
    pub in_truncated_pkts: Option<i64>,
    pub in_mcast_pkts: Option<i64>,
    pub out_mcast_pkts: Option<i64>,
    pub in_bcast_pkts: Option<i64>,
    pub out_bcast_pkts: Option<i64>,
    pub in_octets: Option<i64>,
    pub out_octets: Option<i64>,
    pub in_mcast_octets: Option<i64>,
    pub out_mcast_octets: Option<i64>,
    pub in_bcast_octets: Option<i64>,
    pub out_bcast_octets: Option<i64>,
    pub in_csum_errors: Option<i64>,
    pub in_no_ect_pkts: Option<i64>,
    pub in_ect1_pkts: Option<i64>,
    pub in_ect0_pkts: Option<i64>,
    pub in_ce_pkts: Option<i64>,
    pub reasm_overlaps: Option<i64>,
}

impl IpExt {
    /// No counter known yet.
    pub open spec fn is_blank(&self) -> bool {
        self.in_no_routes is None
        && self.in_truncated_pkts is None
        && self.in_mcast_pkts is None
        && self.out_mcast_pkts is None
        && self.in_bcast_pkts is None
        && self.out_bcast_pkts is None
        && self.in_octets is None
        && self.out_octets is None
        && self.in_mcast_octets is None
        && self.out_mcast_octets is None
        && self.in_bcast_octets is None
        && self.out_bcast_octets is None
        && self.in_csum_errors is None
        && self.in_no_ect_pkts is None
        && self.in_ect1_pkts is None
        && self.in_ect0_pkts is None
        && self.in_ce_pkts is None
        && self.reasm_overlaps is None
    }

    /// Each counter holds what the `ipext` rows of the table give it.
    pub open spec fn read_from(&self, rows: Seq<RowView>) -> bool {
        self.in_no_routes == field_value(rows, "ipext"@, "innoroutes"@)
        && self.in_truncated_pkts == field_value(rows, "ipext"@, "intruncatedpkts"@)
        && self.in_mcast_pkts == field_value(rows, "ipext"@, "inmcastpkts"@)
        && self.out_mcast_pkts == field_value(rows, "ipext"@, "outmcastpkts"@)
        && self.in_bcast_pkts == field_value(rows, "ipext"@, "inbcastpkts"@)
        && self.out_bcast_pkts == field_value(rows, "ipext"@, "outbcastpkts"@)
        && self.in_octets == field_value(rows, "ipext"@, "inoctets"@)
        && self.out_octets == field_value(rows, "ipext"@, "outoctets"@)
        && self.in_mcast_octets == field_value(rows, "ipext"@, "inmcastoctets"@)
        && self.out_mcast_octets == field_value(rows, "ipext"@, "outmcastoctets"@)
        && self.in_bcast_octets == field_value(rows, "ipext"@, "inbcastoctets"@)
        && self.out_bcast_octets == field_value(rows, "ipext"@, "outbcastoctets"@)
        && self.in_csum_errors == field_value(rows, "ipext"@, "incsumerrors"@)
        && self.in_no_ect_pkts == field_value(rows, "ipext"@, "innoectpkts"@)
        && self.in_ect1_pkts == field_value(rows, "ipext"@, "inect1pkts"@)
        && self.in_ect0_pkts == field_value(rows, "ipext"@, "inect0pkts"@)
        && self.in_ce_pkts == field_value(rows, "ipext"@, "incepkts"@)
        && self.reasm_overlaps == field_value(rows, "ipext"@, "reasmoverlaps"@)
    }

    /// Every counter of the `ipext` rows that is given has a value that parses.
    pub open spec fn readable(rows: Seq<RowView>) -> bool {
        field_parses(rows, "ipext"@, "innoroutes"@)
        && field_parses(rows, "ipext"@, "intruncatedpkts"@)
        && field_parses(rows, "ipext"@, "inmcastpkts"@)
        && field_parses(rows, "ipext"@, "outmcastpkts"@)
        && field_parses(rows, "ipext"@, "inbcastpkts"@)
        && field_parses(rows, "ipext"@, "outbcastpkts"@)
        && field_parses(rows, "ipext"@, "inoctets"@)
        && field_parses(rows, "ipext"@, "outoctets"@)
        && field_parses(rows, "ipext"@, "inmcastoctets"@)
        && field_parses(rows, "ipext"@, "outmcastoctets"@)
        && field_parses(rows, "ipext"@, "inbcastoctets"@)
        && field_parses(rows, "ipext"@, "outbcastoctets"@)
        && field_parses(rows, "ipext"@, "incsumerrors"@)
        && field_parses(rows, "ipext"@, "innoectpkts"@)
        && field_parses(rows, "ipext"@, "inect1pkts"@)
        && field_parses(rows, "ipext"@, "inect0pkts"@)
        && field_parses(rows, "ipext"@, "incepkts"@)
        && field_parses(rows, "ipext"@, "reasmoverlaps"@)
    }

    pub fn new() -> (r: Self)
        ensures
            r.is_blank(),
    {
        IpExt {
            in_no_routes: None,
            in_truncated_pkts: None,
            in_mcast_pkts: None,
            out_mcast_pkts: None,
            in_bcast_pkts: None,
            out_bcast_pkts: None,
            in_octets: None,
            out_octets: None,
            in_mcast_octets: None,
            out_mcast_octets: None,
            in_bcast_octets: None,
            out_bcast_octets: None,
            in_csum_errors: None,
            in_no_ect_pkts: None,
            in_ect1_pkts: None,
            in_ect0_pkts: None,
            in_ce_pkts: None,
            reasm_overlaps: None,
        }
    }

    /// The counters of the `ipext` rows of a table.
    #[verifier::rlimit(50)]
    pub fn from_rows(rows: &Vec<StatRow>) -> (r: Result<Self, MetricError>)
        ensures
            r is Ok <==> Self::readable(rows_view(rows@)),
            r is Ok ==> r->Ok_0.read_from(rows_view(rows@)),
    {
        let section = chars_of("ipext");
        let in_no_routes = match read_field(rows, &section, "innoroutes") {
            Ok(v) => v,
            Err(e) => return Err(e),
        };
        let in_truncated_pkts = match read_field(rows, &section, "intruncatedpkts") {
            Ok(v) => v,
            Err(e) => return Err(e),
        };
        let in_mcast_pkts = match read_field(rows, &section, "inmcastpkts") {
            Ok(v) => v,
            Err(e) => return Err(e),
        };
        let out_mcast_pkts = match read_field(rows, &section, "outmcastpkts") {
            Ok(v) => v,
            Err(e) => return Err(e),
        };
        let in_bcast_pkts = match read_field(rows, &section, "inbcastpkts") {
            Ok(v) => v,
            Err(e) => return Err(e),
        };
        let out_bcast_pkts = match read_field(rows, &section, "outbcastpkts") {
            Ok(v) => v,
            Err(e) => return Err(e),
        };
        let in_octets = match read_field(rows, &section, "inoctets") {
            Ok(v) => v,
            Err(e) => return Err(e),
        };
        let out_octets = match read_field(rows, &section, "outoctets") {
            Ok(v) => v,
            Err(e) => return Err(e),
        };
        let in_mcast_octets = match read_field(rows, &section, "inmcastoctets") {
            Ok(v) => v,
            Err(e) => return Err(e),
        };
        let out_mcast_octets = match read_field(rows, &section, "outmcastoctets") {
            Ok(v) => v,
            Err(e) => return Err(e),
        };
        let in_bcast_octets = match read_field(rows, &section, "inbcastoctets") {
            Ok(v) => v,
            Err(e) => return Err(e),
        };
        let out_bcast_octets = match read_field(rows, &section, "outbcastoctets") {
            Ok(v) => v,
            Err(e) => return Err(e),
        };
        let in_csum_errors = match read_field(rows, &section, "incsumerrors") {
            Ok(v) => v,
            Err(e) => return Err(e),
        };
        let in_no_ect_pkts = match read_field(rows, &section, "innoectpkts") {
            Ok(v) => v,
            Err(e) => return Err(e),
        };
        let in_ect1_pkts = match read_field(rows, &section, "inect1pkts") {
            Ok(v) => v,
            Err(e) => return Err(e),
        };
        let in_ect0_pkts = match read_field(rows, &section, "inect0pkts") {
            Ok(v) => v,
            Err(e) => return Err(e),
        };
        let in_ce_pkts = match read_field(rows, &section, "incepkts") {
            Ok(v) => v,
            Err(e) => return Err(e),
        };
        let reasm_overlaps = match read_field(rows, &section, "reasmoverlaps") {
            Ok(v) => v,
            Err(e) => return Err(e),
        };
        Ok(IpExt {
            in_no_routes,
            in_truncated_pkts,
            in_mcast_pkts,
            out_mcast_pkts,
            in_bcast_pkts,
            out_bcast_pkts,
            in_octets,
            out_octets,
            in_mcast_octets,
            out_mcast_octets,
            in_bcast_octets,
            out_bcast_octets,
            in_csum_errors,
            in_no_ect_pkts,
            in_ect1_pkts,
            in_ect0_pkts,
            in_ce_pkts,
            reasm_overlaps,
        })
    }
}

impl ProcessNetstat {
    pub fn new() -> (r: Self)
        ensures
            r.tcp_ext.is_blank(),
            r.ip_ext.is_blank(),
    {
        ProcessNetstat {
            tcp_ext: TcpExt::new(),
            ip_ext: IpExt::new(),
        }
    }

    /// Every section's counters read from the table.
    pub open spec fn read_from(&self, rows: Seq<RowView>) -> bool {
        self.tcp_ext.read_from(rows)
        && self.ip_ext.read_from(rows)
    }

    /// Every given counter of a known section parses.
    pub open spec fn readable(rows: Seq<RowView>) -> bool {
        TcpExt::readable(rows)
        && IpExt::readable(rows)
    }

    /// The counters of a table already split into rows.
    pub fn from_rows(rows: &Vec<StatRow>) -> (r: Result<Self, MetricError>)
        ensures
            r is Ok <==> Self::readable(rows_view(rows@)),
            r is Ok ==> r->Ok_0.read_from(rows_view(rows@)),
    {
        let tcp_ext = match TcpExt::from_rows(rows) {
            Ok(v) => v,
            Err(e) => return Err(e),
        };
        let ip_ext = match IpExt::from_rows(rows) {
            Ok(v) => v,
            Err(e) => return Err(e),
        };
        Ok(ProcessNetstat { tcp_ext, ip_ext })
    }

    /// The counters of the file, given as its lines.
    pub fn parse(lines: &Vec<String>) -> (r: Result<Self, MetricError>)
        ensures
            match table_of(lines.deep_view()) {
                Some(t) => (r is Ok <==> Self::readable(t)) && (r is Ok ==> r->Ok_0.read_from(t)),
                None => r is Err,
            },
    {
        let rows = parse_table(lines)?;
        Self::from_rows(&rows)
    }
}

} // verus!
