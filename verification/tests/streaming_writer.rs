use std::future::Future;
use std::pin::Pin;
use std::sync::Arc;
use std::time::Duration;

use bytes::Bytes;
use tokio::runtime::{Builder, Runtime};
use tokio::sync::mpsc::{self, unbounded_channel, UnboundedReceiver};
use tokio::sync::{Mutex, OwnedSemaphorePermit, Semaphore};
use tokio::task::JoinHandle;
use xet_streaming::background::{
    BackgroundAction, BackgroundEvent, BackgroundTask, QueueItem,
};
use xet_streaming::error::FileReconstructionError;
use xet_streaming::file_range::FileRange;
use xet_streaming::streaming_writer::{
    check_term_data, finished, queued, StreamingWriter as TermWriter,
};

type Res<T> = Result<T, FileReconstructionError>;
type DataFuture = Pin<Box<dyn Future<Output = Res<Bytes>> + Send>>;
type Item = QueueItem<JoinHandle<Res<Bytes>>, OwnedSemaphorePermit>;
type Inner = TermWriter<JoinHandle<Res<Bytes>>, OwnedSemaphorePermit, JoinHandle<Res<()>>>;

/// A writer that performs what the library decides, on a tokio runtime.
struct StreamingWriter {
    inner: Mutex<Inner>,
}

impl StreamingWriter {
    fn new(output: mpsc::Sender<Bytes>) -> Self {
        let (queue_tx, queue_rx) = unbounded_channel();
        let background = tokio::spawn(background_task(queue_rx, output));
        StreamingWriter { inner: Mutex::new(TermWriter::new(queue_tx, background)) }
    }

    async fn set_next_term_data_source(
        &self,
        byte_range: FileRange,
        permit: Option<OwnedSemaphorePermit>,
        data_future: DataFuture,
    ) -> Res<()> {
        let mut inner = self.inner.lock().await;
        let expected_size = inner.set_next_term_data_source(byte_range)?;
        let handle = tokio::spawn(async move { check_term_data(expected_size, data_future.await) });
        inner.enqueue(handle, permit)
    }

    async fn finish(&self) -> Res<u64> {
        let (handle, total_bytes) = self.inner.lock().await.finish()?;
        finished(total_bytes, handle.await.map_err(|e| e.to_string()))
    }
}

async fn background_task(rx: UnboundedReceiver<Item>, tx: mpsc::Sender<Bytes>) -> Res<()> {
    let mut task = BackgroundTask::new(rx);
    let mut action: BackgroundAction<JoinHandle<Res<Bytes>>> = BackgroundAction::Receive;
    loop {
        let event = match action {
            BackgroundAction::Receive => {
                BackgroundEvent::Received(task.receiver_mut().unwrap().recv().await)
            },
            BackgroundAction::Join(handle) => {
                BackgroundEvent::Joined(handle.await.map_err(|e| e.to_string()))
            },
            BackgroundAction::Send(chunk) => BackgroundEvent::Sent(tx.send(chunk).await.is_ok()),
            BackgroundAction::Exit(result) => return result,
        };
        action = task.step(event);
    }
}

fn runtime() -> Runtime {
    Builder::new_multi_thread().worker_threads(2).enable_time().build().unwrap()
}

fn immediate_future(data: Bytes) -> DataFuture {
    Box::pin(async move { Ok(data) })
}

/// Runs the test body, then collects all received chunks while finishing, so
/// that a full channel does not block.
async fn run_streaming<F, Fut>(buffer_size: usize, f: F) -> (Vec<u8>, u64)
where
    F: FnOnce(Arc<StreamingWriter>) -> Fut,
    Fut: Future<Output = ()>,
{
    let (tx, mut rx) = mpsc::channel(buffer_size);
    let writer = Arc::new(StreamingWriter::new(tx));

    f(writer.clone()).await;

    let collect_handle = tokio::spawn(async move {
        let mut collected = Vec::new();
        while let Some(chunk) = rx.recv().await {
            collected.extend_from_slice(&chunk);
        }
        collected
    });

    let bytes_written = writer.finish().await.unwrap();
    let collected = collect_handle.await.unwrap();
    (collected, bytes_written)
}

#[test]
fn test_sequential_writes() {
    runtime().block_on(async {
        let (result, n) = run_streaming(16, |w| async move {
            w.set_next_term_data_source(
                FileRange::new(0, 5),
                None,
                immediate_future(Bytes::from("Hello")),
            )
            .await
            .unwrap();
            w.set_next_term_data_source(
                FileRange::new(5, 6),
                None,
                immediate_future(Bytes::from(" ")),
            )
            .await
            .unwrap();
            w.set_next_term_data_source(
                FileRange::new(6, 11),
                None,
                immediate_future(Bytes::from("World")),
            )
            .await
            .unwrap();
        })
        .await;

        assert_eq!(result, b"Hello World");
        assert_eq!(n, 11);
    });
}

#[test]
fn test_delayed_futures_preserve_order() {
    runtime().block_on(async {
        let (tx, mut rx) = mpsc::channel(16);
        let writer = Arc::new(StreamingWriter::new(tx));

        let f0: DataFuture = Box::pin(async {
            tokio::time::sleep(Duration::from_millis(50)).await;
            Ok(Bytes::from("Hello"))
        });
        let f1: DataFuture = Box::pin(async {
            tokio::time::sleep(Duration::from_millis(10)).await;
            Ok(Bytes::from(" "))
        });
        let f2: DataFuture = Box::pin(async { Ok(Bytes::from("World")) });

        writer.set_next_term_data_source(FileRange::new(0, 5), None, f0).await.unwrap();
        writer.set_next_term_data_source(FileRange::new(5, 6), None, f1).await.unwrap();
        writer.set_next_term_data_source(FileRange::new(6, 11), None, f2).await.unwrap();

        writer.finish().await.unwrap();

        let mut collected = Vec::new();
        while let Some(chunk) = rx.recv().await {
            collected.extend_from_slice(&chunk);
        }
        assert_eq!(collected, b"Hello World");
    });
}

#[test]
fn test_non_sequential_range_returns_error() {
    runtime().block_on(async {
        let (tx, _rx) = mpsc::channel(16);
        let writer = Arc::new(StreamingWriter::new(tx));

        writer
            .set_next_term_data_source(
                FileRange::new(0, 5),
                None,
                immediate_future(Bytes::from("Hello")),
            )
            .await
            .unwrap();

        let result = writer
            .set_next_term_data_source(
                FileRange::new(10, 15),
                None,
                immediate_future(Bytes::from("World")),
            )
            .await;
        assert!(matches!(result, Err(FileReconstructionError::InternalWriterError(_))));
        assert_eq!(
            result,
            Err(FileReconstructionError::InternalWriterError(
                "Byte range not sequential: expected start at 5, got 10".to_string()
            ))
        );
    });
}

#[test]
fn test_first_range_must_start_at_zero() {
    runtime().block_on(async {
        let (tx, _rx) = mpsc::channel(16);
        let writer = Arc::new(StreamingWriter::new(tx));

        let result = writer
            .set_next_term_data_source(
                FileRange::new(5, 10),
                None,
                immediate_future(Bytes::from("Hello")),
            )
            .await;
        assert!(matches!(result, Err(FileReconstructionError::InternalWriterError(_))));
    });
}

#[test]
fn test_size_mismatch_error() {
    runtime().block_on(async {
        let (tx, _rx) = mpsc::channel(16);
        let writer = Arc::new(StreamingWriter::new(tx));

        writer
            .set_next_term_data_source(
                FileRange::new(0, 10),
                None,
                immediate_future(Bytes::from("Hello")),
            )
            .await
            .unwrap();

        let result = writer.finish().await;
        assert!(result.is_err());
        assert_eq!(
            result,
            Err(FileReconstructionError::InternalWriterError(
                "Data size mismatch: expected 10 bytes, got 5 bytes".to_string()
            ))
        );
    });
}

#[test]
fn test_finish_twice_returns_error() {
    runtime().block_on(async {
        let (tx, _rx) = mpsc::channel(16);
        let writer = Arc::new(StreamingWriter::new(tx));

        writer.finish().await.unwrap();
        let result = writer.finish().await;
        assert!(matches!(result, Err(FileReconstructionError::InternalWriterError(_))));
        assert_eq!(
            result,
            Err(FileReconstructionError::InternalWriterError(
                "Writer has already finished".to_string()
            ))
        );
    });
}

#[test]
fn test_write_after_finish_returns_error() {
    runtime().block_on(async {
        let (tx, _rx) = mpsc::channel(16);
        let writer = Arc::new(StreamingWriter::new(tx));

        writer.finish().await.unwrap();
        let result = writer
            .set_next_term_data_source(
                FileRange::new(0, 5),
                None,
                immediate_future(Bytes::from("Hello")),
            )
            .await;
        assert!(matches!(result, Err(FileReconstructionError::InternalWriterError(_))));
    });
}

#[test]
fn test_future_error_propagates() {
    runtime().block_on(async {
        let (tx, _rx) = mpsc::channel(16);
        let writer = Arc::new(StreamingWriter::new(tx));

        let failing: DataFuture =
            Box::pin(async { Err(FileReconstructionError::InternalError("boom".to_string())) });

        writer.set_next_term_data_source(FileRange::new(0, 5), None, failing).await.unwrap();

        let result = writer.finish().await;
        assert!(result.is_err());
        assert_eq!(result, Err(FileReconstructionError::InternalError("boom".to_string())));
    });
}

#[test]
fn test_bytes_written_tracking() {
    runtime().block_on(async {
        let (result, n) = run_streaming(16, |w| async move {
            w.set_next_term_data_source(
                FileRange::new(0, 5),
                None,
                immediate_future(Bytes::from("Hello")),
            )
            .await
            .unwrap();
            w.set_next_term_data_source(
                FileRange::new(5, 11),
                None,
                immediate_future(Bytes::from(" World")),
            )
            .await
            .unwrap();
            w.set_next_term_data_source(
                FileRange::new(11, 16),
                None,
                immediate_future(Bytes::from("!!!!!")),
            )
            .await
            .unwrap();
        })
        .await;

        assert_eq!(result, b"Hello World!!!!!");
        assert_eq!(n, 16);
    });
}

#[test]
fn test_semaphore_permit_released_after_write() {
    runtime().block_on(async {
        let (tx, mut rx) = mpsc::channel(16);
        let writer = Arc::new(StreamingWriter::new(tx));
        let semaphore = Arc::new(Semaphore::new(2));

        let permit1 = semaphore.clone().acquire_owned().await.unwrap();
        let permit2 = semaphore.clone().acquire_owned().await.unwrap();

        assert_eq!(semaphore.available_permits(), 0);

        writer
            .set_next_term_data_source(
                FileRange::new(0, 5),
                Some(permit1),
                immediate_future(Bytes::from("Hello")),
            )
            .await
            .unwrap();

        // Drain the channel so the background task can make progress.
        let _ = rx.recv().await;
        tokio::time::sleep(Duration::from_millis(50)).await;
        assert_eq!(semaphore.available_permits(), 1);

        writer
            .set_next_term_data_source(
                FileRange::new(5, 6),
                Some(permit2),
                immediate_future(Bytes::from(" ")),
            )
            .await
            .unwrap();

        let _ = rx.recv().await;
        tokio::time::sleep(Duration::from_millis(50)).await;
        assert_eq!(semaphore.available_permits(), 2);

        writer.finish().await.unwrap();
    });
}

#[test]
fn test_many_small_writes() {
    runtime().block_on(async {
        let expected: Vec<u8> = (0..100u8).collect();

        let (result, n) = run_streaming(16, |w| async move {
            for i in 0..100u8 {
                w.set_next_term_data_source(
                    FileRange::new(i as u64, i as u64 + 1),
                    None,
                    immediate_future(Bytes::from(vec![i])),
                )
                .await
                .unwrap();
            }
        })
        .await;

        assert_eq!(result, expected);
        assert_eq!(n, 100);
    });
}

#[test]
fn test_chunks_arrive_on_receiver() {
    runtime().block_on(async {
        let (tx, mut rx) = mpsc::channel(2);
        let writer = Arc::new(StreamingWriter::new(tx));

        writer
            .set_next_term_data_source(
                FileRange::new(0, 3),
                None,
                immediate_future(Bytes::from("abc")),
            )
            .await
            .unwrap();
        writer
            .set_next_term_data_source(
                FileRange::new(3, 6),
                None,
                immediate_future(Bytes::from("def")),
            )
            .await
            .unwrap();

        // Chunks should be receivable before finish.
        let chunk1 = rx.recv().await.unwrap();
        let chunk2 = rx.recv().await.unwrap();
        assert_eq!(chunk1, Bytes::from("abc"));
        assert_eq!(chunk2, Bytes::from("def"));

        writer.finish().await.unwrap();
    });
}

#[test]
fn terms_queue_in_order_with_their_permits() {
    let (queue_tx, mut queue_rx) = unbounded_channel();
    let mut writer: TermWriter<&str, u8, &str> = TermWriter::new(queue_tx, "background");
    assert_eq!(writer.set_next_term_data_source(FileRange::new(0, 7)), Ok(7));
    assert_eq!(writer.enqueue("first", Some(3)), Ok(()));
    assert_eq!(writer.set_next_term_data_source(FileRange::new(7, 7)), Ok(0));
    assert_eq!(writer.enqueue("second", None), Ok(()));
    assert_eq!(writer.next_position(), 7);

    let first = queue_rx.try_recv().unwrap();
    assert_eq!((first.handle, first.permit), ("first", Some(3)));
    let second = queue_rx.try_recv().unwrap();
    assert_eq!((second.handle, second.permit), ("second", None));
    assert!(queue_rx.try_recv().is_err());
}

#[test]
fn refused_terms_change_nothing() {
    let (queue_tx, _queue_rx) = unbounded_channel();
    let mut writer: TermWriter<(), (), ()> = TermWriter::new(queue_tx, ());
    assert_eq!(writer.set_next_term_data_source(FileRange::new(0, 1234567)), Ok(1234567));
    for start in [0, 1234566, 1234568, u64::MAX] {
        let result = writer.set_next_term_data_source(FileRange::new(start, 0));
        let message = format!(
            "Byte range not sequential: expected start at 1234567, got {}",
            start
        );
        assert_eq!(result, Err(FileReconstructionError::InternalWriterError(message)));
        assert_eq!(writer.next_position(), 1234567);
    }
    assert!(!writer.is_finished());
    assert!(writer.entry((), None).is_some());
    assert_eq!(writer.finish(), Ok(((), 1234567)));
    assert!(writer.is_finished());
    assert!(writer.entry((), None).is_none());
}

#[test]
fn a_closed_queue_refuses_a_term_that_was_counted() {
    let (queue_tx, queue_rx) = unbounded_channel();
    let mut writer: TermWriter<(), (), ()> = TermWriter::new(queue_tx, ());
    drop(queue_rx);
    assert_eq!(writer.set_next_term_data_source(FileRange::new(0, 5)), Ok(5));
    let closed =
        FileReconstructionError::InternalWriterError("Background writer channel closed".to_string());
    assert_eq!(writer.enqueue((), None), Err(closed));
    assert_eq!(writer.next_position(), 5);
    assert_eq!(queued(true), Ok(()));
    assert!(queued(false).is_err());
}

#[test]
fn finishing_closes_the_queue() {
    let (queue_tx, mut queue_rx) = unbounded_channel();
    let mut writer: TermWriter<u8, (), ()> = TermWriter::new(queue_tx, ());
    assert_eq!(writer.set_next_term_data_source(FileRange::new(0, 5)), Ok(5));
    assert_eq!(writer.enqueue(1, None), Ok(()));
    assert_eq!(writer.finish(), Ok(((), 5)));
    assert_eq!(queue_rx.blocking_recv().unwrap().handle, 1);
    assert!(queue_rx.blocking_recv().is_none());
}

#[test]
fn data_must_have_the_size_of_its_term() {
    assert_eq!(check_term_data(5, Ok(Bytes::from("Hello"))), Ok(Bytes::from("Hello")));
    assert_eq!(check_term_data(0, Ok(Bytes::new())), Ok(Bytes::new()));
    assert_eq!(
        check_term_data(4, Ok(Bytes::from("Hello"))),
        Err(FileReconstructionError::InternalWriterError(
            "Data size mismatch: expected 4 bytes, got 5 bytes".to_string()
        ))
    );
    assert_eq!(
        check_term_data(u64::MAX, Ok(Bytes::new())),
        Err(FileReconstructionError::InternalWriterError(
            "Data size mismatch: expected 18446744073709551615 bytes, got 0 bytes".to_string()
        ))
    );
    let boom = || FileReconstructionError::InternalError("boom".to_string());
    assert_eq!(check_term_data(5, Err(boom())), Err(boom()));
}

#[test]
fn finish_reports_the_background_result() {
    let boom = || FileReconstructionError::InternalError("boom".to_string());
    assert_eq!(finished(11, Ok(Ok(()))), Ok(11));
    assert_eq!(finished(11, Ok(Err(boom()))), Err(boom()));
    assert_eq!(
        finished(11, Err("panicked".to_string())),
        Err(FileReconstructionError::InternalWriterError(
            "Background writer task failed: panicked".to_string()
        ))
    );
}

#[test]
fn background_stops_at_the_first_failure() {
    // A data task that cannot be joined.
    let mut task: BackgroundTask<(), u8> = BackgroundTask::new(());
    let action = task.step(BackgroundEvent::Received(Some(QueueItem {
        handle: "h",
        permit: Some(1),
    })));
    assert!(matches!(action, BackgroundAction::Join("h")));
    let action: BackgroundAction<&str> = task.step(BackgroundEvent::Joined(Err("gone".to_string())));
    match action {
        BackgroundAction::Exit(Err(FileReconstructionError::InternalError(message))) => {
            assert_eq!(message, "Task join error: gone")
        },
        _ => panic!("expected the join error"),
    }

    assert!(task.receiver_mut().is_none());

    // An output channel that is closed.
    let mut task: BackgroundTask<(), u8> = BackgroundTask::new(());
    task.step(BackgroundEvent::Received(Some(QueueItem { handle: "h", permit: None })));
    let action: BackgroundAction<&str> =
        task.step(BackgroundEvent::Joined(Ok(Ok(Bytes::from("x")))));
    match action {
        BackgroundAction::Send(chunk) => assert_eq!(chunk, Bytes::from("x")),
        _ => panic!("expected the chunk"),
    }
    let action: BackgroundAction<&str> = task.step(BackgroundEvent::Sent(false));
    match action {
        BackgroundAction::Exit(Err(FileReconstructionError::InternalWriterError(message))) => {
            assert_eq!(message, "Output channel closed")
        },
        _ => panic!("expected the closed channel"),
    }
}

#[test]
fn background_gives_the_permit_back_when_the_chunk_is_sent() {
    let permit = Arc::new(());
    let mut task: BackgroundTask<(), Arc<()>> = BackgroundTask::new(());
    task.step(BackgroundEvent::Received(Some(QueueItem {
        handle: (),
        permit: Some(permit.clone()),
    })));
    assert_eq!(Arc::strong_count(&permit), 2);
    let _: BackgroundAction<()> = task.step(BackgroundEvent::Joined(Ok(Ok(Bytes::from("x")))));
    assert_eq!(Arc::strong_count(&permit), 2);
    let action: BackgroundAction<()> = task.step(BackgroundEvent::Sent(true));
    assert!(matches!(action, BackgroundAction::Receive));
    assert_eq!(Arc::strong_count(&permit), 1);
}

#[test]
fn an_ended_background_task_holds_no_permit_and_no_queue() {
    let permits = [Arc::new(()), Arc::new(()), Arc::new(())];
    let (queue_tx, queue_rx) = unbounded_channel();
    for permit in &permits {
        assert!(queue_tx
            .send(QueueItem { handle: (), permit: Some(permit.clone()) })
            .is_ok());
    }
    let mut task = BackgroundTask::new(queue_rx);

    // The first term is forwarded.
    let item = task.receiver_mut().unwrap().try_recv().ok();
    task.step(BackgroundEvent::Received(item));
    let _: BackgroundAction<()> = task.step(BackgroundEvent::Joined(Ok(Ok(Bytes::from("x")))));
    let _: BackgroundAction<()> = task.step(BackgroundEvent::Sent(true));
    assert_eq!(Arc::strong_count(&permits[0]), 1);

    // The second fails; the third is still queued.
    let item = task.receiver_mut().unwrap().try_recv().ok();
    task.step(BackgroundEvent::Received(item));
    assert_eq!(Arc::strong_count(&permits[1]), 2);
    let boom = FileReconstructionError::InternalError("boom".to_string());
    let _: BackgroundAction<()> = task.step(BackgroundEvent::Joined(Ok(Err(boom))));
    assert!(task.receiver_mut().is_none());
    for permit in &permits {
        assert_eq!(Arc::strong_count(permit), 1);
    }
    assert!(queue_tx.is_closed());
}
