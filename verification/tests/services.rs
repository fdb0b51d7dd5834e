//! The operations of the services, driven with a store in memory.
use std::collections::HashMap;

use arcrelay_print::application::job_flow::{JobAction, JobFlow, JobReply};
use arcrelay_print::application::job_lists::{
    RecentAction, RecentFlow, RecentReply, ReconcileAction, ReconcileFlow, ReconcileReply,
};
use arcrelay_print::application::ports::{
    clamped_ms, millis_or_zero, unix_time_ms, wrapped_ms, Clock, NativeJobStatus, SystemClock,
};
use arcrelay_print::application::queue_service::{
    InstallFlow, QueueAction, QueueReply, RemoveFlow,
};
use arcrelay_print::application::runtime::{recovery_summary, RecoverySummary};
use arcrelay_print::application::share_service::{
    is_remote_queue, remote_queue_ids, RemoteQueueIds, ShareAction, ShareFlow, ShareReply,
};
use arcrelay_print::{
    ClientJobId, ColorMode, DeviceId, DuplexMode, LocalPrinter, LocalPrinterId, MediaSize,
    NativeJobId, Orientation, PageRange, PrintDocument, PrintDomainEvent, PrintError, PrintJob,
    PrintJobId, PrintJobService, PrintJobState, PrintOptions, PrintResolution, PrintResult,
    PrinterCapabilities, PrinterShare, PrinterShareId, PrinterShareService, PrinterStatus,
    PublishedPrinter, QueueBindingState, RemoteQueueBinding, ShareState, SystemQueueId,
    SystemQueueService,
};

fn capabilities() -> PrinterCapabilities {
    PrinterCapabilities {
        media_sizes: vec![MediaSize::new("iso_a4_210x297mm", 210_000, 297_000).unwrap()],
        color_modes: vec![ColorMode::Monochrome],
        duplex_modes: vec![DuplexMode::OneSided],
        resolutions: vec![PrintResolution {
            horizontal_dpi: 300,
            vertical_dpi: 300,
        }],
        max_copies: 1,
        supports_page_ranges: true,
        supports_collation: false,
        accepted_document_types: vec!["application/pdf".into()],
    }
}

fn printer(id: &str) -> LocalPrinter {
    LocalPrinter {
        id: LocalPrinterId::parse(id).unwrap(),
        display_name: "Test Printer".into(),
        status: PrinterStatus::Ready,
        connection_kind: "test".into(),
        is_default: true,
        capabilities: capabilities(),
    }
}

fn document() -> PrintDocument {
    PrintDocument {
        name: "document.pdf".into(),
        media_type: "application/pdf".into(),
        size_bytes: 4,
        sha256: [7; 32],
    }
}

fn options() -> PrintOptions {
    PrintOptions {
        copies: 1,
        color_mode: ColorMode::Monochrome,
        duplex_mode: DuplexMode::OneSided,
        orientation: Orientation::Portrait,
        media_name: "iso_a4_210x297mm".into(),
        page_ranges: vec![],
        collate: false,
    }
}

struct World {
    shares: Vec<PrinterShare>,
    jobs: HashMap<String, PrintJob>,
    fail_next_queued_save: bool,
    submissions: usize,
    submit_error: Option<PrintError>,
    status: NativeJobStatus,
    cancelled: Vec<String>,
    events: Vec<PrintDomainEvent>,
    now: i64,
}

impl World {
    fn new() -> Self {
        World {
            shares: vec![PrinterShare::publish(printer("printer"), 1).unwrap()],
            jobs: HashMap::new(),
            fail_next_queued_save: false,
            submissions: 0,
            submit_error: None,
            status: NativeJobStatus::Queued,
            cancelled: Vec::new(),
            events: Vec::new(),
            now: 10,
        }
    }

    fn save(&mut self, job: &PrintJob) -> PrintResult<()> {
        if job.state == PrintJobState::Queued && self.fail_next_queued_save {
            self.fail_next_queued_save = false;
            return Err(PrintError::Persistence("injected queued save failure".into()));
        }
        self.jobs.insert(job.id.to_string(), job.clone());
        self.events.push(PrintJobService::new().stored_event(job));
        Ok(())
    }

    fn active(&self) -> Vec<PrintJob> {
        let mut jobs: Vec<PrintJob> = self
            .jobs
            .values()
            .filter(|job| !job.state.terminal())
            .cloned()
            .collect();
        jobs.sort_by(|a, b| a.client_job_id.as_str().cmp(b.client_job_id.as_str()));
        jobs
    }

    fn answer(&mut self, action: &JobAction<'_>) -> JobReply {
        match action {
            JobAction::FindClientJob(device, id) => JobReply::Job(Ok(self
                .jobs
                .values()
                .find(|job| job.source_device_id == **device && job.client_job_id == **id)
                .cloned())),
            JobAction::ListActive => JobReply::Active(Ok(self.active())),
            JobAction::FindJob(id) => JobReply::Job(Ok(self.jobs.get(id.as_str()).cloned())),
            JobAction::FindShare(id) => JobReply::Share(Ok(self
                .shares
                .iter()
                .find(|share| share.id == **id)
                .cloned())),
            JobAction::Save(job) => JobReply::Saved(self.save(job)),
            JobAction::Submit(printer, job) => {
                assert_eq!(printer.as_str(), "printer");
                assert_eq!(self.jobs[job.id.as_str()].state, PrintJobState::Submitting);
                self.submissions += 1;
                JobReply::Submitted(match self.submit_error.take() {
                    Some(error) => Err(error),
                    None => NativeJobId::parse("native-42"),
                })
            }
            JobAction::QueryNative(_) => JobReply::Status(Ok(self.status)),
            JobAction::CancelNative(id) => {
                self.cancelled.push(id.to_string());
                JobReply::Cancelled(Ok(()))
            }
            JobAction::Finished => panic!("nothing was asked"),
        }
    }

    fn run(&mut self, mut flow: JobFlow) -> PrintResult<PrintJob> {
        loop {
            let reply = match flow.action() {
                JobAction::Finished => break,
                action => self.answer(&action),
            };
            flow = flow.resume(reply, self.now);
        }
        match flow.into_result() {
            Ok(result) => result,
            Err(_) => panic!("the flow has not ended"),
        }
    }

    fn offer(&mut self, client: &str, device: &str, options: PrintOptions) -> PrintResult<PrintJob> {
        let share_id = self.shares[0].id.clone();
        self.run(PrintJobService::new().offer(
            ClientJobId::parse(client).unwrap(),
            DeviceId::parse(device).unwrap(),
            share_id,
            document(),
            options,
        ))
    }

    fn ready(&mut self) -> PrintJob {
        let service = PrintJobService::new();
        let job = self.offer("client-job", "source-device", options()).unwrap();
        self.run(service.begin_receiving(&job.id)).unwrap();
        self.run(service.document_received(&job.id, [7; 32])).unwrap();
        self.run(service.mark_valid(&job.id)).unwrap()
    }

    fn reconcile(&mut self) -> PrintResult<Vec<PrintJob>> {
        let mut flow = PrintJobService::new().reconcile_active();
        loop {
            let reply = match flow.action() {
                ReconcileAction::ListActive => ReconcileReply::Active(Ok(self.active())),
                ReconcileAction::QueryNative(_) => ReconcileReply::Status(Ok(self.status)),
                ReconcileAction::Save(job) => {
                    let job = job.clone();
                    ReconcileReply::Saved(self.save(&job))
                }
                ReconcileAction::Finished => break,
            };
            flow = flow.resume(reply, self.now);
        }
        match flow {
            ReconcileFlow::Done(result) => result,
            _ => panic!("the flow has not ended"),
        }
    }
}

#[test]
fn successful_native_submit_with_failed_queued_save_is_never_resubmitted() {
    let mut world = World::new();
    let service = PrintJobService::new();
    let job = world.offer("client-job", "source-device", options()).unwrap();
    assert_eq!(
        world.events[0],
        PrintDomainEvent::JobStateChanged {
            job_id: job.id.clone(),
            state: PrintJobState::Offered,
        }
    );
    world.run(service.begin_receiving(&job.id)).unwrap();
    world
        .run(service.document_received(&job.id, [7; 32]))
        .unwrap();
    world.run(service.mark_valid(&job.id)).unwrap();
    world.fail_next_queued_save = true;

    let error = world.run(service.submit(&job.id)).unwrap_err();
    assert_eq!(
        error,
        PrintError::Backend(
            "native job native-42 was submitted but its queued state could not be saved: \
             print persistence failed: injected queued save failure"
                .into()
        )
    );
    let persisted = world.jobs[job.id.as_str()].clone();
    assert_eq!(persisted.state, PrintJobState::Ambiguous);
    assert_eq!(
        persisted.native_job_id.as_ref().unwrap().as_str(),
        "native-42"
    );
    assert_eq!(world.submissions, 1);

    assert!(world.run(service.submit(&job.id)).is_err());
    assert_eq!(world.submissions, 1);
}

#[test]
fn repeated_offers_find_the_first_job() {
    let mut world = World::new();
    let first = world.offer("client", "device", options()).unwrap();
    let again = world.offer("client", "device", options()).unwrap();
    assert_eq!(first, again);
    assert_eq!(world.jobs.len(), 1);
    let mut other = options();
    other.orientation = Orientation::Landscape;
    assert_eq!(
        world.offer("client", "device", other).unwrap_err(),
        PrintError::Conflict("client print job id was reused with different content".into())
    );
    assert!(world.offer("client", "other-device", options()).is_ok());
}

#[test]
fn a_device_has_at_most_eight_recent_jobs() {
    let mut world = World::new();
    for n in 0..8 {
        world
            .offer(&format!("client-{n}"), "device", options())
            .unwrap();
    }
    assert_eq!(
        world.offer("client-8", "device", options()).unwrap_err(),
        PrintError::Conflict("device already has 8 active print jobs".into())
    );
    assert!(world.offer("client-8", "device-b", options()).is_ok());
    world.now = 10 + 30 * 60 * 1_000;
    assert!(world.offer("client-9", "device", options()).is_ok());
}

#[test]
fn offers_are_held_against_the_printer() {
    let mut world = World::new();
    let refused = PrintError::Invalid("print options are not supported by this printer".into());
    let mut o = options();
    o.color_mode = ColorMode::Color;
    assert_eq!(world.offer("a", "d", o).unwrap_err(), refused);
    let mut o = options();
    o.duplex_mode = DuplexMode::TwoSidedLongEdge;
    assert_eq!(world.offer("a", "d", o).unwrap_err(), refused);
    let mut o = options();
    o.media_name = "na_letter_8.5x11in".into();
    assert_eq!(world.offer("a", "d", o).unwrap_err(), refused);
    let mut o = options();
    o.copies = 2;
    assert_eq!(world.offer("a", "d", o).unwrap_err(), refused);
    let mut o = options();
    o.collate = true;
    assert_eq!(world.offer("a", "d", o).unwrap_err(), refused);
    let mut o = options();
    o.page_ranges = vec![PageRange { first: 1, last: 1 }];
    assert!(world.offer("a", "d", o).is_ok());
    let mut o = options();
    o.copies = 0;
    assert_eq!(
        world.offer("b", "d", o).unwrap_err(),
        PrintError::Invalid("invalid number of copies".into())
    );
    world.shares[0].suspend(2).unwrap();
    assert_eq!(
        world.offer("c", "d", options()).unwrap_err(),
        PrintError::InvalidState("printer is not publicly shared".into())
    );
    let flow = PrintJobService::new().offer(
        ClientJobId::parse("c").unwrap(),
        DeviceId::parse("d").unwrap(),
        PrinterShareId::parse("nowhere").unwrap(),
        document(),
        options(),
    );
    assert_eq!(
        world.run(flow).unwrap_err(),
        PrintError::NotFound("nowhere".into())
    );
}

#[test]
fn submission_needs_a_published_share() {
    let mut world = World::new();
    let job = world.ready();
    world.shares[0].suspend(2).unwrap();
    assert_eq!(
        world.run(PrintJobService::new().submit(&job.id)).unwrap_err(),
        PrintError::InvalidState("printer share was stopped before submission".into())
    );
    assert_eq!(world.submissions, 0);
    world.shares[0].resume(3).unwrap();
    let queued = world.run(PrintJobService::new().submit(&job.id)).unwrap();
    assert_eq!(queued.state, PrintJobState::Queued);
    assert_eq!(queued.native_job_id.unwrap().as_str(), "native-42");
}

#[test]
fn a_failing_spooler_leaves_the_job_in_doubt() {
    let mut world = World::new();
    let job = world.ready();
    world.submit_error = Some(PrintError::Backend("gone".into()));
    let message = "native spooler submission result is uncertain; \
                   inspect the system queue before retrying: print backend failed: gone";
    assert_eq!(
        world.run(PrintJobService::new().submit(&job.id)).unwrap_err(),
        PrintError::Backend(message.into())
    );
    let stored = &world.jobs[job.id.as_str()];
    assert_eq!(stored.state, PrintJobState::Ambiguous);
    assert_eq!(stored.failure_message.as_deref(), Some(message));
}

#[test]
fn strangers_learn_nothing_of_jobs() {
    let mut world = World::new();
    let service = PrintJobService::new();
    let job = world.ready();
    let owner = DeviceId::parse("source-device").unwrap();
    let stranger = DeviceId::parse("stranger").unwrap();
    let missing = PrintJobId::parse("missing").unwrap();
    assert!(world.run(service.get_owned(&job.id, &owner)).is_ok());
    let not_found = PrintError::NotFound(job.id.to_string());
    assert_eq!(
        world.run(service.get_owned(&job.id, &stranger)).unwrap_err(),
        not_found
    );
    assert_eq!(
        world.run(service.refresh_owned(&job.id, &stranger)).unwrap_err(),
        not_found
    );
    assert_eq!(
        world.run(service.cancel_owned(&job.id, &stranger)).unwrap_err(),
        not_found
    );
    assert_eq!(
        world.run(service.get_owned(&missing, &owner)).unwrap_err(),
        PrintError::NotFound("missing".into())
    );
    assert_eq!(
        world.run(service.cancel_owned(&job.id, &owner)).unwrap().state,
        PrintJobState::Cancelled
    );
}

#[test]
fn refreshing_and_cancelling_ask_the_spooler() {
    let mut world = World::new();
    let service = PrintJobService::new();
    let job = world.ready();
    let owner = DeviceId::parse("source-device").unwrap();
    world.run(service.submit(&job.id)).unwrap();
    world.status = NativeJobStatus::Unknown;
    let held = world.run(service.refresh_owned(&job.id, &owner)).unwrap();
    assert_eq!(held.state, PrintJobState::Held);
    assert_eq!(
        held.failure_message.as_deref(),
        Some("native print status requires inspection")
    );
    world.status = NativeJobStatus::Queued;
    let queued = world.run(service.refresh_owned(&job.id, &owner)).unwrap();
    assert_eq!(queued.state, PrintJobState::Queued);
    world.status = NativeJobStatus::Printing;
    assert_eq!(
        world.run(service.refresh_owned(&job.id, &owner)).unwrap().state,
        PrintJobState::Printing
    );
    assert_eq!(
        world.run(service.cancel(&job.id)).unwrap().state,
        PrintJobState::Cancelled
    );
    assert_eq!(world.cancelled, ["native-42"]);
}

#[test]
fn recent_jobs_are_refreshed_on_request() {
    let mut world = World::new();
    let service = PrintJobService::new();
    let job = world.ready();
    let queued = world.run(service.submit(&job.id)).unwrap();
    let offered = world.offer("other", "other-device", options()).unwrap();
    world.status = NativeJobStatus::Completed;
    let mut listed = Vec::new();
    for refresh in [false, true] {
        let mut flow = service.list_recent(10, refresh);
        loop {
            let reply = match flow.action() {
                RecentAction::ListRecent(limit) => {
                    assert_eq!(limit, 10);
                    RecentReply::Recent(Ok(vec![queued.clone(), offered.clone()]))
                }
                RecentAction::Refresh(action) => RecentReply::Refresh(world.answer(&action)),
                RecentAction::Finished => break,
            };
            flow = flow.resume(reply, world.now);
        }
        match flow {
            RecentFlow::Done(result) => listed.push(result.unwrap()),
            _ => panic!("the flow has not ended"),
        }
    }
    assert_eq!(listed[0], vec![queued, offered.clone()]);
    assert_eq!(listed[1][0].state, PrintJobState::Completed);
    assert_eq!(listed[1][1], offered);
}

#[test]
fn reconciliation_never_resubmits() {
    let mut world = World::new();
    let service = PrintJobService::new();
    let ready = world.ready();
    let receiving = world.offer("b", "device", options()).unwrap();
    world.run(service.begin_receiving(&receiving.id)).unwrap();
    let mut interrupted = ready.clone();
    interrupted.id = PrintJobId::random();
    interrupted.client_job_id = ClientJobId::parse("d").unwrap();
    interrupted.begin_submitting(5).unwrap();
    world.jobs.insert(interrupted.id.to_string(), interrupted.clone());
    let reconciled = world.reconcile().unwrap();
    assert_eq!(world.submissions, 0);
    assert_eq!(reconciled.len(), 3);
    assert_eq!(reconciled[0].state, PrintJobState::Failed);
    assert_eq!(
        reconciled[0].failure_message.as_deref(),
        Some("ArcRelay restarted before the document was ready")
    );
    assert_eq!(reconciled[1], ready);
    assert_eq!(reconciled[2].state, PrintJobState::Ambiguous);
    assert_eq!(
        recovery_summary(2, &reconciled),
        RecoverySummary {
            removed_partial_documents: 2,
            reconciled_jobs: 3
        }
    );
    assert_eq!(
        world.run(service.submit(&interrupted.id)).unwrap_err(),
        PrintError::InvalidState("cannot transition Ambiguous to Submitting".into())
    );
}

#[test]
fn reconciliation_keeps_doubtful_jobs_without_a_native_id() {
    let mut world = World::new();
    let job = world.ready();
    world.submit_error = Some(PrintError::Backend("gone".into()));
    assert!(world.run(PrintJobService::new().submit(&job.id)).is_err());
    let reconciled = world.reconcile().unwrap();
    assert_eq!(reconciled[0].state, PrintJobState::Ambiguous);
    let mut waiting = job.clone();
    waiting.begin_submitting(1).unwrap();
    waiting
        .queued(NativeJobId::parse("n").unwrap(), 1)
        .unwrap();
    waiting.native_job_id = None;
    world.jobs.clear();
    world.jobs.insert(waiting.id.to_string(), waiting);
    let reconciled = world.reconcile().unwrap();
    assert_eq!(reconciled[0].state, PrintJobState::Held);
    assert_eq!(
        reconciled[0].failure_message.as_deref(),
        Some("native print job id is unavailable")
    );
}

#[test]
fn remote_queue_is_recognized_by_reserved_name_or_persisted_system_id() {
    let mut ids = RemoteQueueIds::new();
    ids.insert("system-printer-id".to_string());

    assert!(is_remote_queue(
        &LocalPrinterId::parse("ArcRelay_Office_ab12cd34").unwrap(),
        &RemoteQueueIds::new()
    ));
    assert!(is_remote_queue(
        &LocalPrinterId::parse("system-printer-id").unwrap(),
        &ids
    ));
    assert!(!is_remote_queue(
        &LocalPrinterId::parse("local-office-printer").unwrap(),
        &ids
    ));
}

fn binding(name: &str, id: Option<&str>) -> RemoteQueueBinding {
    let mut binding = RemoteQueueBinding::installing(
        DeviceId::parse("device").unwrap(),
        PrinterShareId::parse("share").unwrap(),
        name.into(),
        1,
    )
    .unwrap();
    if let Some(id) = id {
        binding
            .installed(SystemQueueId::parse(id).unwrap(), 2)
            .unwrap();
    }
    binding
}

#[test]
fn remote_queues_are_neither_shared_nor_listed() {
    let service = PrinterShareService::new(true);
    let bindings = vec![binding("queue-a", None), binding("queue-b", Some("id-b"))];
    let ids = remote_queue_ids(&bindings);
    assert!(ids.contains("queue-a") && ids.contains("queue-b") && ids.contains("id-b"));
    assert!(!ids.contains("id-a"));
    let printers = vec![printer("own"), printer("queue-a"), printer("id-b")];
    let own = service.list_local_printers(&bindings, &printers);
    assert_eq!(own.len(), 1);
    assert_eq!(own[0].id.as_str(), "own");
    let shares: Vec<PrinterShare> = printers
        .iter()
        .map(|printer| PrinterShare::publish(printer.clone(), 1).unwrap())
        .collect();
    assert_eq!(service.list(&bindings, &shares), vec![shares[0].clone()]);
    let device = DeviceId::parse("this").unwrap();
    let published = service.list_published(&device, "This", &bindings, &printers, &shares);
    assert_eq!(published.len(), 1);
    assert_eq!(published[0].status, PrinterStatus::Ready);
    assert_eq!(published[0].source_device_name, "This");
    assert_eq!(published[0].share_id, shares[0].id);
    let gone = service.list_published(&device, "This", &bindings, &vec![], &shares);
    assert_eq!(gone[0].status, PrinterStatus::Offline);
    let mut suspended = shares.clone();
    suspended[0].suspend(2).unwrap();
    assert!(service
        .list_published(&device, "This", &bindings, &printers, &suspended)
        .is_empty());
    assert!(PrinterShareService::new(false)
        .list_published(&device, "This", &bindings, &printers, &shares)
        .is_empty());
}

fn run_share(
    mut flow: ShareFlow,
    bindings: &[RemoteQueueBinding],
    printers: &[LocalPrinter],
    shares: &mut Vec<PrinterShare>,
    now: i64,
) -> PrintResult<PrinterShare> {
    loop {
        let reply = match flow.action() {
            ShareAction::ListBindings => ShareReply::Bindings(Ok(bindings.to_vec())),
            ShareAction::FindPrinter(id) => ShareReply::Printer(Ok(printers
                .iter()
                .find(|printer| printer.id == *id)
                .cloned())),
            ShareAction::FindByPrinter(id) => ShareReply::Share(Ok(shares
                .iter()
                .find(|share| share.local_printer_id == *id)
                .cloned())),
            ShareAction::Find(id) => {
                ShareReply::Share(Ok(shares.iter().find(|share| share.id == *id).cloned()))
            }
            ShareAction::Save(share) => {
                let share = share.clone();
                shares.retain(|known| known.id != share.id);
                shares.push(share);
                ShareReply::Saved(Ok(()))
            }
            ShareAction::Finished => break,
        };
        flow = flow.resume(reply, now);
    }
    match flow {
        ShareFlow::Done(result) => result,
        _ => panic!("the flow has not ended"),
    }
}

#[test]
fn printers_are_published_suspended_and_published_again() {
    let service = PrinterShareService::new(true);
    let mut shares = Vec::new();
    let id = LocalPrinterId::parse("own").unwrap();
    let mut own = printer("own");
    let first = run_share(
        service.publish(&id),
        &[],
        &[own.clone()],
        &mut shares,
        5,
    )
    .unwrap();
    assert_eq!(first.state, ShareState::Published);
    let paused = run_share(service.suspend(&first.id), &[], &[], &mut shares, 6).unwrap();
    assert_eq!(paused.state, ShareState::Suspended);
    own.display_name = "Renamed".into();
    let again = run_share(service.publish(&id), &[], &[own.clone()], &mut shares, 7).unwrap();
    assert_eq!(again.id, first.id);
    assert_eq!(again.state, ShareState::Published);
    assert_eq!(again.display_name, "Renamed");
    assert_eq!(again.capability_revision, 2);
    assert_eq!(shares.len(), 1);
    assert_eq!(
        run_share(service.publish(&id), &[], &[], &mut shares, 8).unwrap_err(),
        PrintError::NotFound("own".into())
    );
    assert_eq!(
        run_share(
            service.publish(&id),
            &[binding("own", None)],
            &[own],
            &mut shares,
            8
        )
        .unwrap_err(),
        PrintError::Invalid("ArcRelay-installed remote printers cannot be shared again".into())
    );
    assert_eq!(
        run_share(
            PrinterShareService::new(false).publish(&id),
            &[],
            &[],
            &mut shares,
            8
        )
        .unwrap_err(),
        PrintError::Backend(
            "sharing local printers is not supported on this operating system yet".into()
        )
    );
    let unknown = PrinterShareId::parse("unknown").unwrap();
    assert_eq!(
        run_share(service.suspend(&unknown), &[], &[], &mut shares, 8).unwrap_err(),
        PrintError::NotFound("unknown".into())
    );
}

fn published() -> PublishedPrinter {
    PublishedPrinter {
        source_device_id: DeviceId::parse("device").unwrap(),
        source_device_name: "Device".into(),
        share_id: PrinterShareId::parse("share").unwrap(),
        display_name: "Printer".into(),
        status: PrinterStatus::Ready,
        capabilities: capabilities(),
        capability_revision: 1,
    }
}

fn run_install(
    existing: Option<RemoteQueueBinding>,
    installed: PrintResult<SystemQueueId>,
) -> (PrintResult<RemoteQueueBinding>, Vec<RemoteQueueBinding>, usize) {
    let mut flow = SystemQueueService::new().install(
        published(),
        "ArcRelay_Printer".into(),
        "ipp://127.0.0.1:1/x".into(),
    );
    let mut installed = Some(installed);
    let mut saved = Vec::new();
    let mut installs = 0;
    loop {
        let reply = match flow.action() {
            QueueAction::FindRemote(device, share) => {
                assert_eq!((device.as_str(), share.as_str()), ("device", "share"));
                QueueReply::Binding(Ok(existing.clone()))
            }
            QueueAction::Save(binding) => {
                saved.push(binding.clone());
                QueueReply::Saved(Ok(()))
            }
            QueueAction::Install(spec) => {
                assert_eq!(spec.ipp_uri, "ipp://127.0.0.1:1/x");
                installs += 1;
                QueueReply::Installed(installed.take().unwrap())
            }
            QueueAction::Finished => break,
            _ => panic!("not asked when installing"),
        };
        flow = flow.resume(reply, 5);
    }
    match flow {
        InstallFlow::Done(result) => (result, saved, installs),
        _ => panic!("the flow has not ended"),
    }
}

#[test]
fn queues_are_installed_once() {
    let (result, saved, installs) = run_install(None, SystemQueueId::parse("sys"));
    let ready = result.unwrap();
    assert_eq!(ready.state, QueueBindingState::Ready);
    assert_eq!(ready.system_queue_id.as_ref().unwrap().as_str(), "sys");
    assert_eq!(saved.len(), 2);
    assert_eq!(saved[0].state, QueueBindingState::Installing);
    assert_eq!(installs, 1);
    let (again, saved, installs) = run_install(Some(ready.clone()), SystemQueueId::parse("sys"));
    assert_eq!(again.unwrap(), ready);
    assert!(saved.is_empty());
    assert_eq!(installs, 0);
    let (failed, _, _) = run_install(None, Err(PrintError::Backend("no driver".into())));
    let failed = failed.unwrap();
    assert_eq!(failed.state, QueueBindingState::Failed);
    assert_eq!(
        failed.failure_message.as_deref(),
        Some("print backend failed: no driver")
    );
    let (retried, _, installs) = run_install(Some(failed), SystemQueueId::parse("sys"));
    assert_eq!(retried.unwrap().state, QueueBindingState::Ready);
    assert_eq!(installs, 1);
    let mut removing = ready;
    removing.begin_removal(6).unwrap();
    let (refused, _, _) = run_install(Some(removing), SystemQueueId::parse("sys"));
    assert_eq!(
        refused.unwrap_err(),
        PrintError::InvalidState("printer queue is currently being removed".into())
    );
}

fn run_remove(existing: Option<RemoteQueueBinding>) -> (PrintResult<()>, Vec<&'static str>) {
    let id = match &existing {
        Some(binding) => binding.id.clone(),
        None => arcrelay_print::QueueBindingId::parse("missing").unwrap(),
    };
    let mut flow = SystemQueueService::new().remove(&id);
    let mut steps = Vec::new();
    loop {
        let reply = match flow.action() {
            QueueAction::Find(_) => QueueReply::Binding(Ok(existing.clone())),
            QueueAction::Save(_) => {
                steps.push("save");
                QueueReply::Saved(Ok(()))
            }
            QueueAction::Uninstall(_) => {
                steps.push("uninstall");
                QueueReply::Uninstalled(Ok(()))
            }
            QueueAction::Delete(_) => {
                steps.push("delete");
                QueueReply::Deleted(Ok(()))
            }
            QueueAction::Finished => break,
            _ => panic!("not asked when removing"),
        };
        flow = flow.resume(reply, 5);
    }
    match flow {
        RemoveFlow::Done(result) => (result, steps),
        _ => panic!("the flow has not ended"),
    }
}

#[test]
fn queues_are_removed_before_they_are_forgotten() {
    assert_eq!(
        run_remove(Some(binding("q", Some("sys")))),
        (Ok(()), vec!["save", "uninstall", "delete"])
    );
    let mut failed = binding("q", None);
    failed.fail("x".into(), 3);
    assert_eq!(run_remove(Some(failed)), (Ok(()), vec!["save", "delete"]));
    assert_eq!(
        run_remove(Some(binding("q", None))).0.unwrap_err(),
        PrintError::InvalidState("queue has not been installed".into())
    );
    assert_eq!(
        run_remove(None).0.unwrap_err(),
        PrintError::NotFound("missing".into())
    );
}

#[test]
fn clocks_read_milliseconds_since_the_epoch() {
    let now = SystemClock.now_ms();
    assert!(now > 1_600_000_000_000);
    assert!(unix_time_ms() >= now);
    assert_eq!(wrapped_ms(5), 5);
    assert_eq!(wrapped_ms(u64::MAX as u128), -1);
    assert_eq!(wrapped_ms(1u128 << 64), 0);
    assert_eq!(clamped_ms(7), 7);
    assert_eq!(millis_or_zero(Some(3)), 3);
    assert_eq!(millis_or_zero(None), 0);
    assert_eq!(clamped_ms(u128::MAX), i64::MAX);
}
