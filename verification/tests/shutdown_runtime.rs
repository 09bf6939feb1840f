//! Runtime tests of the coordinated shutdown and the tick ordering:
//! real tasks and channels, with every decision taken by the library's
//! step functions. After the stop-flag is set, every spawned task must
//! terminate within a bounded time; within one tick, the store
//! handshake must resolve before the broadcast goes out.

use std::sync::{Arc, Mutex};
use std::time::Duration;

use futures::future::{select, Either};
use netspeedmon::database::{database_step, DatabaseAction, DatabaseEvent, DatabaseState};
use netspeedmon::exporters::{consumer_step, ConsumerAction, ConsumerEvent, ConsumerState};
use netspeedmon::inmemory::InMemory;
use netspeedmon::measure::{CliRunOutcome, Measurement, SpeedTestCli};
use netspeedmon::monitor::{ShutdownSequence, StoreOutcome, TickCycle};

type Log = Arc<Mutex<Vec<String>>>;

fn log(events: &Log, event: &str) {
    events.lock().unwrap().push(event.to_string());
}

#[test]
fn shutdown_terminates_every_task_and_store_resolves_before_broadcast() {
    let rt = tokio::runtime::Builder::new_multi_thread()
        .worker_threads(2)
        .enable_time()
        .build()
        .unwrap();
    rt.block_on(async {
        let events: Log = Arc::new(Mutex::new(Vec::new()));

        let (quit_tx, _) = tokio::sync::watch::channel(false);
        let (db_tx, mut db_rx) = tokio::sync::mpsc::channel::<(
            Measurement,
            tokio::sync::oneshot::Sender<()>,
        )>(1);
        let (exp_tx, _) = tokio::sync::broadcast::channel::<Measurement>(16);

        // The history-store task: races the stop-flag against the
        // inbound channel and lets the library decide each round.
        let mut quit_db = quit_tx.subscribe();
        let db_log = events.clone();
        let store_task = tokio::spawn(async move {
            let mut store = InMemory::new(8);
            let mut state = DatabaseState::Running;
            let mut next_ts: i64 = 0;
            let mut stored = 0usize;
            while matches!(state, DatabaseState::Running) {
                let changed = Box::pin(quit_db.changed());
                let recv = Box::pin(db_rx.recv());
                let (event, ack) = match select(changed, recv).await {
                    Either::Left(_) => (DatabaseEvent::StopRequested, None),
                    Either::Right((Some((m, ack)), _)) => (DatabaseEvent::Request(m), Some(ack)),
                    Either::Right((None, _)) => (DatabaseEvent::ProducerClosed, None),
                };
                let (next_state, action) = database_step(state, event);
                state = next_state;
                match action {
                    DatabaseAction::Exit => {}
                    DatabaseAction::StoreAndAck(m) => {
                        next_ts += 1;
                        store.store(next_ts, m);
                        stored += 1;
                        log(&db_log, &format!("store_acked_{}", stored));
                        if let Some(ack) = ack {
                            let _ = ack.send(());
                        }
                    }
                    DatabaseAction::KeepWaiting => {
                        tokio::time::sleep(Duration::from_millis(1)).await;
                    }
                }
            }
            store.retrieve_history().len()
        });

        // Two consumer tasks, each racing the stop-flag against the
        // broadcast.
        let mut consumer_tasks = Vec::new();
        for id in 0..2usize {
            let mut quit_rx = quit_tx.subscribe();
            let mut sample_rx = exp_tx.subscribe();
            let consumer_log = events.clone();
            consumer_tasks.push(tokio::spawn(async move {
                let mut state = ConsumerState::Running;
                let mut delivered = 0usize;
                while matches!(state, ConsumerState::Running) {
                    let changed = Box::pin(quit_rx.changed());
                    let recv = Box::pin(sample_rx.recv());
                    let event = match select(changed, recv).await {
                        Either::Left(_) => ConsumerEvent::StopRequested,
                        Either::Right((Ok(m), _)) => ConsumerEvent::Sample(m),
                        Either::Right((
                            Err(tokio::sync::broadcast::error::RecvError::Lagged(_)),
                            _,
                        )) => ConsumerEvent::Lagged,
                        Either::Right((
                            Err(tokio::sync::broadcast::error::RecvError::Closed),
                            _,
                        )) => ConsumerEvent::ChannelClosed,
                    };
                    let (next_state, action) = consumer_step(state, event);
                    state = next_state;
                    match action {
                        ConsumerAction::Exit => {}
                        ConsumerAction::Deliver(_) => {
                            delivered += 1;
                            log(&consumer_log, &format!("consumer_{}_delivered", id));
                        }
                        ConsumerAction::Skip => {
                            tokio::time::sleep(Duration::from_millis(1)).await;
                        }
                    }
                }
                delivered
            }));
        }

        // Two ticks, each one full measure/store/broadcast cycle.
        for tick in 1..=2u64 {
            let mut cycle = TickCycle::begin(0, 60_000);
            let sample = Measurement::new(tick, tick, tick);
            cycle.measurement_resolved();
            let budget = cycle.store_budget(1_000);
            let (ack_tx, ack_rx) = tokio::sync::oneshot::channel();
            let outcome = match db_tx
                .send_timeout((sample, ack_tx), Duration::from_millis(budget))
                .await
            {
                Err(_) => StoreOutcome::SendFailed,
                Ok(()) => match ack_rx.await {
                    Ok(()) => StoreOutcome::Acked,
                    Err(_) => StoreOutcome::AckFailed,
                },
            };
            assert!(matches!(outcome, StoreOutcome::Acked));
            cycle.store_resolved(outcome);
            log(&events, &format!("store_resolved_{}", tick));
            assert!(exp_tx.send(sample).is_ok());
            log(&events, &format!("broadcast_{}", tick));
            cycle.broadcast_issued();
        }

        // Let both consumers drain the broadcast before shutting down:
        // a sample still in flight when the stop-flag fires may be lost
        // (the allowed shutdown race), and this test is about
        // termination, not about that race.
        let deadline = std::time::Instant::now() + Duration::from_secs(5);
        loop {
            let delivered = {
                let events = events.lock().unwrap();
                (0..2usize).all(|id| {
                    events
                        .iter()
                        .filter(|e| *e == &format!("consumer_{}_delivered", id))
                        .count()
                        >= 2
                })
            };
            if delivered {
                break;
            }
            assert!(
                std::time::Instant::now() < deadline,
                "consumers must drain the broadcast in bounded time"
            );
            tokio::time::sleep(Duration::from_millis(5)).await;
        }

        // The shutdown sequence, in its fixed order. The signal task
        // stands in for the external-signal listener.
        let (sig_tx, sig_rx) = tokio::sync::oneshot::channel::<()>();
        let signal_task = tokio::spawn(async move {
            let _ = sig_rx.await;
        });

        let mut shutdown = ShutdownSequence::begin();
        quit_tx.send(true).unwrap();
        shutdown.stop_flag_set();
        let _ = sig_tx.send(());
        tokio::time::timeout(Duration::from_secs(5), signal_task)
            .await
            .expect("signal task must terminate in bounded time")
            .unwrap();
        shutdown.signal_task_joined();
        tokio::time::timeout(Duration::from_secs(5), quit_tx.closed())
            .await
            .expect("every stop-flag reader must observe the change in bounded time");
        shutdown.flag_observed();

        let stored = tokio::time::timeout(Duration::from_secs(5), store_task)
            .await
            .expect("store task must terminate in bounded time")
            .unwrap();
        assert_eq!(stored, 2, "both ticks' samples must have been stored");
        for task in consumer_tasks {
            let delivered = tokio::time::timeout(Duration::from_secs(5), task)
                .await
                .expect("consumer task must terminate in bounded time")
                .unwrap();
            assert_eq!(delivered, 2, "both ticks' samples must have been delivered");
        }
        shutdown.tasks_joined();

        // Per tick, the store handshake resolved (and here: the store
        // acknowledged) strictly before the broadcast was issued.
        let events = events.lock().unwrap().clone();
        for tick in 1..=2usize {
            let acked = events
                .iter()
                .position(|e| e == &format!("store_acked_{}", tick))
                .expect("store must have acknowledged");
            let resolved = events
                .iter()
                .position(|e| e == &format!("store_resolved_{}", tick))
                .expect("handshake must have resolved");
            let broadcast = events
                .iter()
                .position(|e| e == &format!("broadcast_{}", tick))
                .expect("broadcast must have been issued");
            assert!(acked < broadcast);
            assert!(resolved < broadcast);
        }
    });
}

#[test]
fn blocked_measurement_still_completes_the_tick_with_the_zero_sample() {
    let rt = tokio::runtime::Builder::new_multi_thread()
        .worker_threads(1)
        .enable_time()
        .build()
        .unwrap();
    rt.block_on(async {
        let period = Duration::from_millis(100);
        let t_start = tokio::time::Instant::now();
        let deadline = t_start + period;

        let mut cycle = TickCycle::begin(0, 100);

        // The measurement collaborator blocks far past the deadline;
        // the deadline bounds it, and the run resolves to the
        // zero-valued sample.
        let blocked = tokio::time::sleep(Duration::from_secs(60));
        let outcome = match tokio::time::timeout_at(deadline, blocked).await {
            Err(_) => CliRunOutcome::TimedOut,
            Ok(()) => unreachable!("the measurement must be cut off at the deadline"),
        };
        let sample = SpeedTestCli::interpret_run(outcome);
        assert_eq!(sample, Measurement::new(0, 0, 0));
        cycle.measurement_resolved();

        // No budget is left for the store handshake, so the tick does
        // not wait on the store either.
        let now = t_start.elapsed().as_millis() as u64;
        assert_eq!(cycle.store_budget(now), 0);
        cycle.store_resolved(StoreOutcome::SendTimedOut);
        cycle.broadcast_issued();

        assert!(
            t_start.elapsed() < period + Duration::from_secs(2),
            "the tick must complete without blocking past the period beyond scheduling tolerance"
        );
    });
}
