use std::pin::Pin;
use std::sync::{Arc, Mutex};
use std::task::{Context, Poll};

use bytes::Bytes;
use futures::stream::Stream;
use futures::{Future, StreamExt, TryStreamExt};
use tokio::runtime::{Builder, Runtime};
use tokio::sync::mpsc;
use tokio::task::JoinHandle;
use xet_streaming::backend::Backend;
use xet_streaming::background::{BackgroundAction, BackgroundEvent, BackgroundTask};
use xet_streaming::client::XetClient as Client;
use xet_streaming::error::{DataHashHexParseError, DataProcessingError};
use xet_streaming::file_info::XetFileInfo;
use xet_streaming::file_range::FileRange;
use xet_streaming::reader::{
    download_ended, downloader_opened, DownloadRequest, Polled, ReaderAction, ReaderEvent, ReaderPhase, TaskResult, XetReader as Reader,
};
use xet_streaming::streaming_writer::{check_term_data, finished, StreamingWriter};
use xet_streaming::upload::{finalized, session_opened, CleanRequest, XetWriter as Writer};

/// Files kept in memory, each under its number.
#[derive(Default)]
struct Store {
    files: Mutex<Vec<Vec<u8>>>,
}

struct Memory;

impl Backend for Memory {
    type Config = Store;
    type MerkleHash = usize;
    type TokenRefresher = ();
    type ProgressUpdater = Arc<()>;
    type Session = Arc<Store>;
    type Cleaner = Vec<u8>;
    type Receiver = mpsc::Receiver<Bytes>;
    type DownloadTask = JoinHandle<TaskResult>;
}

fn parse_hash(info: &XetFileInfo) -> Result<usize, DataHashHexParseError> {
    usize::from_str_radix(info.hash(), 16).map_err(|_| DataHashHexParseError)
}

fn internal(message: &str) -> DataProcessingError {
    DataProcessingError::InternalError(message.to_string())
}

/// A client that performs what the library decides, on a store in memory.
struct XetClient(Client<Memory>);

impl XetClient {
    fn new() -> Self {
        XetClient(Client::new(Ok(Store::default())).unwrap())
    }

    fn read(
        &self,
        file_info: XetFileInfo,
        file_range: Option<FileRange>,
        progress_updater: Option<Arc<()>>,
        stream_buffer_size: usize,
    ) -> Result<XetReader, DataProcessingError> {
        let hash = parse_hash(&file_info);
        let inner =
            self.0.read(file_info, hash, file_range, progress_updater, stream_buffer_size)?;
        Ok(XetReader { inner })
    }

    fn write(
        &self,
        progress_updater: Option<Arc<()>>,
        name: Option<String>,
        size: u64,
    ) -> Result<XetWriter, DataProcessingError> {
        let request = self.0.write(progress_updater, name, size);
        let (session, clean) = session_opened(Ok(request.config), request.name, request.size)?;
        let cleaner = Vec::with_capacity(clean.size as usize);
        Ok(XetWriter { inner: Writer::new(Ok((session, cleaner)))?, sha256: None })
    }
}

struct XetWriter {
    inner: Writer<Memory>,
    sha256: Option<String>,
}

impl XetWriter {
    fn write(&mut self, data: Bytes) -> Result<(), DataProcessingError> {
        let (cleaner, data) = self.inner.write(data)?;
        cleaner.extend_from_slice(&data);
        Ok(())
    }

    fn close(&mut self) -> Result<XetFileInfo, DataProcessingError> {
        let content = self.inner.close()?;
        let size = content.len() as u64;
        let (session, info) = {
            // The number that the file is going to have.
            let number = 0x2a;
            let hash = format!("{:x}", number);
            let info = match self.sha256.take() {
                Some(sha256) => XetFileInfo::with_sha256(hash, size, sha256),
                None => XetFileInfo::new(hash, size),
            };
            self.inner.cleaned(Ok(info))?
        };
        let mut files = session.files.lock().unwrap();
        files.clear();
        files.push(content);
        finalized(info, Ok(()))
    }

    fn abort(&mut self) -> Result<(), DataProcessingError> {
        self.inner.abort()
    }
}

/// A reader that performs what the library decides, on a tokio runtime.
struct XetReader {
    inner: Reader<Memory>,
}

async fn download_task(
    request: DownloadRequest<Memory>,
    output: mpsc::Sender<Bytes>,
) -> TaskResult {
    // An empty store has nothing to download from.
    let downloader = match request.config.files.lock().unwrap().is_empty() {
        true => Err(internal("empty store")),
        false => Ok(request.config.clone()),
    };
    download_ended(match downloader_opened(downloader, request) {
        Ok((downloader, request)) => Ok(download(downloader, request, output).await),
        Err(error) => Err(error),
    })
}

async fn download(
    downloader: Arc<Store>,
    request: DownloadRequest<Memory>,
    output: mpsc::Sender<Bytes>,
) -> TaskResult {
    if request.merkle_hash != 0x2a || request.file_hash != "2a" {
        return Err(internal("no such file"));
    }
    let content = downloader.files.lock().unwrap()[0].clone();
    let range = request.file_range.unwrap_or(FileRange::new(0, content.len() as u64));
    let content = &content[range.start as usize..range.end as usize];
    for chunk in content.chunks(4096) {
        output
            .send(Bytes::copy_from_slice(chunk))
            .await
            .map_err(|_| internal("channel closed"))?;
    }
    Ok(content.len() as u64)
}

impl XetReader {
    fn start(&mut self) {
        if let Some(request) = self.inner.start() {
            let (tx, rx) = mpsc::channel(request.buffer_size);
            let handle = tokio::spawn(download_task(request, tx));
            self.inner.streaming(rx, handle);
        }
    }

    fn poll_task(&mut self, cx: &mut Context<'_>) -> Polled<TaskResult> {
        match Pin::new(self.inner.task_mut().unwrap()).poll(cx) {
            Poll::Ready(result) => Polled::Ready(result.expect("download task panicked")),
            Poll::Pending => Polled::Pending,
        }
    }
}

impl Stream for XetReader {
    type Item = Result<Bytes, DataProcessingError>;

    fn poll_next(self: Pin<&mut Self>, cx: &mut Context<'_>) -> Poll<Option<Self::Item>> {
        let this = self.get_mut();
        let mut event = ReaderEvent::Poll;
        loop {
            event = match this.inner.poll_next(event) {
                ReaderAction::Start => {
                    this.start();
                    ReaderEvent::Poll
                },
                ReaderAction::PollTask => ReaderEvent::TaskPolled(this.poll_task(cx)),
                ReaderAction::PollChannel => {
                    ReaderEvent::ChannelPolled(
                        match this.inner.receiver_mut().unwrap().poll_recv(cx) {
                            Poll::Ready(chunk) => Polled::Ready(chunk),
                            Poll::Pending => Polled::Pending,
                        },
                    )
                },
                ReaderAction::RecheckTask => ReaderEvent::TaskRechecked(this.poll_task(cx)),
                ReaderAction::Return(Polled::Ready(item)) => return Poll::Ready(item),
                ReaderAction::Return(Polled::Pending) => return Poll::Pending,
            };
        }
    }
}

fn runtime() -> Runtime {
    Builder::new_multi_thread().worker_threads(2).enable_time().build().unwrap()
}

async fn assert_roundtrip(client: &XetClient, content: &[u8]) {
    let mut writer = client.write(None, None, content.len() as u64).unwrap();
    for chunk in content.chunks(4096) {
        writer.write(Bytes::copy_from_slice(chunk)).unwrap();
    }
    let file_info = writer.close().unwrap();
    assert_eq!(file_info.file_size(), content.len() as u64);

    let reader = client.read(file_info, None, None, 64).unwrap();
    let chunks: Vec<Bytes> = reader.try_collect().await.unwrap();
    assert_eq!(chunks.concat(), content);
}

/// Creates a new reader of a file that need not exist.
fn new_reader() -> Reader<Memory> {
    let info = XetFileInfo::new("2a".to_string(), 0);
    let hash = parse_hash(&info);
    let client: Client<Memory> = Client::new(Ok(Store::default())).unwrap();
    client.read(info, hash, None, None, 1).unwrap()
}

/// Creates a reader already in the streaming state for testing poll behavior.
fn streaming_reader(rx: mpsc::Receiver<Bytes>, handle: JoinHandle<TaskResult>) -> XetReader {
    let mut inner = new_reader();
    assert!(inner.start().is_some());
    inner.streaming(rx, handle);
    XetReader { inner }
}

#[test]
fn test_roundtrip() {
    runtime().block_on(async {
        let client = XetClient::new();

        // Empty.
        assert_roundtrip(&client, &[]).await;
        // Small.
        assert_roundtrip(&client, b"Hello, World!").await;
        // Large (1 MB).
        let large: Vec<u8> = (0..1_000_000).map(|i| (i % 256) as u8).collect();
        assert_roundtrip(&client, &large).await;
    });
}

#[test]
fn test_partial_range() {
    runtime().block_on(async {
        let client = XetClient::new();

        let content: Vec<u8> = (0..1_000_000).map(|i| (i % 256) as u8).collect();
        let mut writer = client.write(None, None, content.len() as u64).unwrap();
        for chunk in content.chunks(4096) {
            writer.write(Bytes::copy_from_slice(chunk)).unwrap();
        }
        let file_info = writer.close().unwrap();

        let range = FileRange::new(1000, 5000);
        let reader = client.read(file_info, Some(range), None, 64).unwrap();
        let chunks: Vec<Bytes> = reader.try_collect().await.unwrap();
        assert_eq!(chunks.concat(), &content[1000..5000]);
    });
}

#[test]
fn test_lazy_initialization() {
    runtime().block_on(async {
        let client = XetClient::new();

        let mut writer = client.write(None, None, 5).unwrap();
        writer.write(Bytes::from_static(b"hello")).unwrap();
        let file_info = writer.close().unwrap();

        let mut reader = client.read(file_info, None, None, 64).unwrap();
        assert!(matches!(reader.inner.phase(), ReaderPhase::Init));

        let _ = reader.next().await;
        assert!(!matches!(reader.inner.phase(), ReaderPhase::Init));
    });
}

#[test]
fn test_reader_error_propagation() {
    runtime().block_on(async {
        let (_tx, rx) = mpsc::channel(4);
        let handle = tokio::spawn(async { Err(internal("download failed")) });
        let mut reader = streaming_reader(rx, handle);

        let item = reader.next().await.unwrap();
        assert!(item.is_err());
        assert!(reader.next().await.is_none());
    });
}

#[test]
fn test_reader_error_surfaces_early() {
    runtime().block_on(async {
        let (tx, rx) = mpsc::channel(16);
        let handle = tokio::spawn(async move {
            tx.send(Bytes::from("a")).await.unwrap();
            tx.send(Bytes::from("b")).await.unwrap();
            tx.send(Bytes::from("c")).await.unwrap();
            Err(internal("fail"))
        });
        let mut reader = streaming_reader(rx, handle);

        // Give the producer time to fill the buffer and return the error.
        tokio::time::sleep(std::time::Duration::from_millis(50)).await;

        let mut saw_error = false;
        let mut chunks_before_error = 0;
        while let Some(item) = reader.next().await {
            match item {
                Ok(_) => chunks_before_error += 1,
                Err(_) => {
                    saw_error = true;
                    break;
                },
            }
        }
        assert!(saw_error);
        assert!(chunks_before_error < 3, "error should surface before all buffered chunks");
    });
}

#[test]
fn test_writer_abort() {
    let client = XetClient::new();

    let mut writer = client.write(None, None, 100).unwrap();
    writer.write(Bytes::from_static(b"some data")).unwrap();
    writer.abort().unwrap();

    assert!(writer.write(Bytes::from_static(b"more")).is_err());
    assert!(writer.close().is_err());
    assert_eq!(writer.close(), Err(internal("writer already closed")));
}

#[test]
fn test_sha256_returned() {
    let client = XetClient::new();

    let content = b"Hello, World!";
    let mut writer = client.write(None, None, content.len() as u64).unwrap();
    writer.sha256 =
        Some("dffd6021bb2bd5b0af676290809ec3a53191dd81c7f70a4b28688a362182986f".to_string());
    writer.write(Bytes::from_static(content)).unwrap();
    let file_info = writer.close().unwrap();

    assert!(file_info.sha256().is_some(), "SHA256 hash should be present");
    let sha256 = file_info.sha256().unwrap();
    assert_eq!(sha256.len(), 64, "SHA256 should be 64 hex characters");
    assert!(sha256.chars().all(|c| c.is_ascii_hexdigit()), "SHA256 should be valid hex");
}

#[test]
fn an_unreadable_hash_makes_no_reader() {
    let client = XetClient::new();
    let info = XetFileInfo::new("not hex".to_string(), 5);
    match client.read(info, None, None, 64) {
        Err(error) => {
            assert_eq!(error, DataProcessingError::HashStringParsingFailure(DataHashHexParseError))
        },
        Ok(_) => panic!("expected an error"),
    }
}

#[test]
fn a_failed_configuration_makes_no_client() {
    match Client::<Memory>::new(Err(internal("no config"))) {
        Err(error) => assert_eq!(error, internal("no config")),
        Ok(_) => panic!("expected an error"),
    }
}

#[test]
fn connections_default_their_endpoint() {
    let token = Some(("token".to_string(), 17));
    let given = Client::<Memory>::connection(
        Some("given".to_string()),
        "default".to_string(),
        token.clone(),
        Some(()),
        "agent".to_string(),
    );
    assert_eq!(given.endpoint, "given");
    assert_eq!(given.token_info, token);
    assert_eq!(given.token_refresher, Some(()));
    assert_eq!(given.user_agent, "agent");
    let defaulted = Client::<Memory>::connection(
        None,
        "default".to_string(),
        None,
        None,
        "agent".to_string(),
    );
    assert_eq!(defaulted.endpoint, "default");
}

#[test]
fn uploads_and_downloads_share_the_configuration() {
    let client: Client<Memory> = Client::new(Ok(Store::default())).unwrap();
    let updater = Arc::new(());
    let upload = client.write(Some(updater.clone()), Some("name".to_string()), 9);
    assert!(Arc::ptr_eq(upload.progress_updater.as_ref().unwrap(), &updater));
    assert_eq!(upload.name, Some("name".to_string()));
    assert_eq!(upload.size, 9);
    let info = XetFileInfo::new("2a".to_string(), 0);
    let mut reader = client.read(info, Ok(0x2a), None, None, 1).unwrap();
    let download = reader.start().unwrap();
    assert!(Arc::ptr_eq(&upload.config, &download.config));
}

#[test]
fn starting_asks_for_the_download_once() {
    runtime().block_on(async {
        let client: Client<Memory> = Client::new(Ok(Store::default())).unwrap();
        let info = XetFileInfo::new("2a".to_string(), 10);
        let updater = Arc::new(());
        let range = FileRange::new(3, 8);
        let mut reader =
            client.read(info, Ok(0x2a), Some(range), Some(updater.clone()), 12).unwrap();

        let request = reader.start().unwrap();
        assert_eq!(request.buffer_size, 12);
        assert_eq!(request.merkle_hash, 0x2a);
        assert_eq!(request.file_hash, "2a");
        assert_eq!(request.file_range, Some(range));
        assert!(Arc::ptr_eq(&request.progress_updater.unwrap(), &updater));

        let (_tx, rx) = mpsc::channel(1);
        reader.streaming(rx, tokio::spawn(async { Ok(0) }));
        assert_eq!(reader.phase(), ReaderPhase::Streaming);
        assert!(reader.start().is_none());
    });
}

#[test]
fn polls_go_through_task_and_channel() {
    runtime().block_on(async {
        let (_tx, rx) = mpsc::channel(1);
        let mut reader = new_reader();
        assert_eq!(reader.poll_next(ReaderEvent::Poll), ReaderAction::Start);
        assert!(reader.receiver_mut().is_none());
        assert!(reader.task_mut().is_none());
        reader.start();
        reader.streaming(rx, tokio::spawn(async { Ok(0) }));
        assert!(reader.receiver_mut().is_some());
        assert!(reader.task_mut().is_some());

        // The task is still running; a chunk is there.
        assert_eq!(reader.poll_next(ReaderEvent::Poll), ReaderAction::PollTask);
        assert_eq!(
            reader.poll_next(ReaderEvent::TaskPolled(Polled::Pending)),
            ReaderAction::PollChannel
        );
        assert_eq!(
            reader.poll_next(ReaderEvent::ChannelPolled(Polled::Ready(Some(Bytes::from("a"))))),
            ReaderAction::Return(Polled::Ready(Some(Ok(Bytes::from("a")))))
        );

        // Nothing is there.
        assert_eq!(
            reader.poll_next(ReaderEvent::ChannelPolled(Polled::Pending)),
            ReaderAction::Return(Polled::Pending)
        );

        // The channel is closed, the task not yet done.
        assert_eq!(
            reader.poll_next(ReaderEvent::ChannelPolled(Polled::Ready(None))),
            ReaderAction::RecheckTask
        );
        assert_eq!(
            reader.poll_next(ReaderEvent::TaskRechecked(Polled::Pending)),
            ReaderAction::Return(Polled::Pending)
        );
        assert_eq!(reader.phase(), ReaderPhase::Streaming);

        // The task is done: it is not polled again.
        assert_eq!(
            reader.poll_next(ReaderEvent::TaskPolled(Polled::Ready(Ok(1)))),
            ReaderAction::PollChannel
        );
        assert!(reader.task_mut().is_none());
        assert_eq!(reader.poll_next(ReaderEvent::Poll), ReaderAction::PollChannel);
        assert_eq!(
            reader.poll_next(ReaderEvent::ChannelPolled(Polled::Ready(None))),
            ReaderAction::Return(Polled::Ready(None))
        );
        assert_eq!(reader.phase(), ReaderPhase::Completed);
        assert_eq!(
            reader.poll_next(ReaderEvent::Poll),
            ReaderAction::Return(Polled::Ready(None))
        );
        assert!(reader.start().is_none());
    });
}

#[test]
fn a_failure_seen_at_the_end_is_yielded() {
    runtime().block_on(async {
        let (_tx, rx) = mpsc::channel(1);
        let mut reader = new_reader();
        reader.start();
        reader.streaming(rx, tokio::spawn(async { Ok(0) }));
        assert_eq!(
            reader.poll_next(ReaderEvent::ChannelPolled(Polled::Ready(None))),
            ReaderAction::RecheckTask
        );
        assert_eq!(
            reader.poll_next(ReaderEvent::TaskRechecked(Polled::Ready(Err(internal("late"))))),
            ReaderAction::Return(Polled::Ready(Some(Err(internal("late")))))
        );
        assert_eq!(reader.phase(), ReaderPhase::Completed);
    });
}

#[test]
fn a_download_of_nothing_ends_with_its_task() {
    runtime().block_on(async {
        let (_tx, rx) = mpsc::channel(1);
        let mut reader = new_reader();
        reader.start();
        reader.streaming(rx, tokio::spawn(async { Ok(0) }));
        assert_eq!(
            reader.poll_next(ReaderEvent::TaskRechecked(Polled::Ready(Ok(0)))),
            ReaderAction::Return(Polled::Ready(None))
        );
        assert_eq!(reader.phase(), ReaderPhase::Completed);
    });
}

#[test]
fn a_file_goes_through_writer_and_reader() {
    let content: Vec<u8> = (0..100).collect();
    let ranges =
        [FileRange::new(0, 10), FileRange::new(10, 10), FileRange::new(10, 99), FileRange::new(99, 100)];
    let data = |range: FileRange| {
        Bytes::copy_from_slice(&content[range.start as usize..range.end as usize])
    };

    // The writer takes the terms.
    let (queue_tx, queue_rx) = mpsc::unbounded_channel();
    let mut writer = StreamingWriter::new(queue_tx, ());
    for range in ranges {
        let size = writer.set_next_term_data_source(range).unwrap();
        let fetched = check_term_data(size, Ok(data(range)));
        writer.enqueue(fetched, Some(())).unwrap();
    }
    let (_, total) = writer.finish().unwrap();

    // The background task forwards them.
    let (tx, rx) = mpsc::channel(16);
    let mut task = BackgroundTask::new(queue_rx);
    let mut action = BackgroundAction::Receive;
    let result = loop {
        let event = match action {
            BackgroundAction::Receive => {
                BackgroundEvent::Received(task.receiver_mut().unwrap().blocking_recv())
            },
            BackgroundAction::Join(fetched) => BackgroundEvent::Joined(Ok(fetched)),
            BackgroundAction::Send(chunk) => BackgroundEvent::Sent(tx.try_send(chunk).is_ok()),
            BackgroundAction::Exit(result) => break result,
        };
        action = task.step(event);
    };
    drop(tx);
    assert_eq!(finished(total, Ok(result)), Ok(100));

    // The reader yields them.
    runtime().block_on(async {
        let mut reader = streaming_reader(rx, tokio::spawn(async { Ok(100) }));
        let mut read = Vec::new();
        for range in ranges {
            assert_eq!(reader.next().await, Some(Ok(data(range))));
            read.extend_from_slice(&data(range));
            assert_eq!(read, &content[..range.end as usize]);
        }
        assert_eq!(reader.next().await, None);
        assert_eq!(reader.next().await, None);
        assert_eq!(read, content);
    });
}

#[test]
fn closing_goes_through_cleaner_and_session() {
    let store = Arc::new(Store::default());
    let mut writer: Writer<Memory> = Writer::new(Ok((store.clone(), Vec::new()))).unwrap();
    assert_eq!(writer.close(), Ok(Vec::new()));
    assert_eq!(writer.close(), Err(internal("writer already closed")));
    assert_eq!(
        writer.write(Bytes::from("x")).err(),
        Some(internal("writer already closed"))
    );

    // The cleaner failed: the session stays.
    let failed = writer.cleaned(Err(internal("cleaner")));
    assert_eq!(failed.err(), Some(internal("cleaner")));

    let info = XetFileInfo::new("ab".to_string(), 3);
    let (session, info) = match writer.cleaned(Ok(info)) {
        Ok(next) => next,
        Err(_) => panic!("expected the session"),
    };
    assert!(Arc::ptr_eq(&session, &store));
    let again = writer.cleaned(Ok(info.clone()));
    assert_eq!(again.err(), Some(internal("writer already closed")));

    assert_eq!(finalized(info.clone(), Ok(())), Ok(info.clone()));
    assert_eq!(finalized(info, Err(internal("remote"))), Err(internal("remote")));
}

#[test]
fn an_open_session_starts_cleaning() {
    let clean = CleanRequest { name: Some("name".to_string()), size: 9 };
    assert_eq!(session_opened(Ok("session"), Some("name".to_string()), 9), Ok(("session", clean)));
    assert_eq!(
        session_opened::<&str>(Err(internal("no session")), None, 9),
        Err(internal("no session"))
    );
}

#[test]
fn starting_by_hand_changes_nothing_but_the_time() {
    runtime().block_on(async {
        let client = XetClient::new();
        let content: Vec<u8> = (0..50_000).map(|i| (i % 251) as u8).collect();
        let mut writer = client.write(None, None, content.len() as u64).unwrap();
        for chunk in content.chunks(777) {
            writer.write(Bytes::copy_from_slice(chunk)).unwrap();
        }
        let info = writer.close().unwrap();

        let mut lazy = client.read(info.clone(), None, None, 3).unwrap();
        let mut eager = client.read(info, None, None, 3).unwrap();
        eager.start();
        let mut read = Vec::new();
        loop {
            let item = lazy.next().await;
            eager.start();
            assert_eq!(eager.next().await, item);
            match item {
                Some(chunk) => read.extend_from_slice(&chunk.unwrap()),
                None => break,
            }
        }
        assert_eq!(read, content);
        assert_eq!(eager.next().await, None);
    });
}

#[test]
fn a_downloader_downloads_its_request() {
    let request = || {
        let client: Client<Memory> = Client::new(Ok(Store::default())).unwrap();
        let info = XetFileInfo::new("2a".to_string(), 10);
        let range = Some(FileRange::new(3, 8));
        client.read(info, Ok(0x2a), range, Some(Arc::new(())), 12).unwrap().start().unwrap()
    };

    let given = request();
    let config = given.config.clone();
    let updater = given.progress_updater.clone().unwrap();
    let (downloader, next) = match downloader_opened(Ok("downloader"), given) {
        Ok(next) => next,
        Err(_) => panic!("expected the downloader"),
    };
    assert_eq!(downloader, "downloader");
    assert!(Arc::ptr_eq(&next.config, &config));
    assert_eq!(next.buffer_size, 12);
    assert_eq!(next.merkle_hash, 0x2a);
    assert_eq!(next.file_hash, "2a");
    assert_eq!(next.file_range, Some(FileRange::new(3, 8)));
    assert!(Arc::ptr_eq(&next.progress_updater.unwrap(), &updater));

    let failed = downloader_opened::<Memory, &str>(Err(internal("no downloader")), request());
    assert_eq!(failed.err(), Some(internal("no downloader")));
}

#[test]
fn a_download_task_ends_as_its_download_does() {
    assert_eq!(download_ended(Ok(Ok(7))), Ok(7));
    assert_eq!(download_ended(Ok(Err(internal("download")))), Err(internal("download")));
    assert_eq!(download_ended(Err(internal("no downloader"))), Err(internal("no downloader")));
}

#[test]
fn a_failed_downloader_is_yielded_and_nothing_else() {
    runtime().block_on(async {
        let client = XetClient::new();
        let info = XetFileInfo::new("2a".to_string(), 5);
        let mut lazy = client.read(info.clone(), None, None, 4).unwrap();
        assert_eq!(lazy.next().await, Some(Err(internal("empty store"))));
        assert_eq!(lazy.next().await, None);
        let mut eager = client.read(info, None, None, 4).unwrap();
        eager.start();
        assert_eq!(eager.next().await, Some(Err(internal("empty store"))));
        assert_eq!(eager.next().await, None);
    });
}

#[test]
fn splits_and_ranges_read_the_same_bytes() {
    runtime().block_on(async {
        let client = XetClient::new();
        let content: Vec<u8> = (0..20_000).map(|i| (i % 253) as u8).collect();
        for split in [1, 4096, 20_000] {
            let mut writer = client.write(None, None, content.len() as u64).unwrap();
            for chunk in content.chunks(split) {
                writer.write(Bytes::copy_from_slice(chunk)).unwrap();
            }
            let info = writer.close().unwrap();
            for (range, buffer) in [
                (None, 1),
                (Some(FileRange::new(0, 20_000)), 2),
                (Some(FileRange::new(4095, 12_345)), 64),
                (Some(FileRange::new(7, 7)), 1),
            ] {
                let reader = client.read(info.clone(), range, Some(Arc::new(())), buffer).unwrap();
                let chunks: Vec<Bytes> = reader.try_collect().await.unwrap();
                let expected = match range {
                    Some(range) => &content[range.start as usize..range.end as usize],
                    None => &content[..],
                };
                assert_eq!(chunks.concat(), expected);
            }
        }
    });
}

#[test]
fn a_failed_session_makes_no_writer() {
    match Writer::<Memory>::new(Err(internal("no session"))) {
        Err(error) => assert_eq!(error, internal("no session")),
        Ok(_) => panic!("expected an error"),
    }
}
