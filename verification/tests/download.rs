use modeltug::parse_content_length;
use modeltug::resolve_url;
use modeltug::FetchError;
use modeltug::Fetcher;
use modeltug::HfFetcher;
use modeltug::HfModelsJson;
use modeltug::ManifestFault;
use modeltug::RepoId;
use modeltug::TransferProgress;
use modeltug::Transport;

/// A transport whose size probe and byte stream are canned: the stream is a
/// list of chunks, optionally cut off by a read failure after a given number
/// of them.  The sink is a byte buffer; every request made is counted.
struct FakeDownloadTransport {
    sink_can_open: bool,
    sink: Vec<u8>,
    head: Result<Option<String>, ()>,
    chunks: Vec<Vec<u8>>,
    fail_after_chunks: Option<usize>,
    announced: Option<u64>,
    network_requests: usize,
    stream_requested: bool,
}

impl FakeDownloadTransport {
    fn new(head: Result<Option<String>, ()>, chunks: Vec<Vec<u8>>) -> FakeDownloadTransport {
        FakeDownloadTransport {
            sink_can_open: true,
            sink: Vec::new(),
            head,
            chunks,
            fail_after_chunks: None,
            announced: None,
            network_requests: 0,
            stream_requested: false,
        }
    }
}

impl Transport for FakeDownloadTransport {
    fn get_models_json(&mut self, _url: &str) -> Result<HfModelsJson, ManifestFault> {
        self.network_requests += 1;
        Err(ManifestFault::Network)
    }

    fn open_sink(&mut self, _name: &str) -> bool {
        self.sink_can_open
    }

    fn probe_content_length(&mut self, _url: &str) -> Result<Option<String>, ()> {
        self.network_requests += 1;
        self.head.clone()
    }

    fn announce_size(&mut self, total: u64) {
        self.announced = Some(total);
    }

    fn fetch_stream(&mut self, _url: &str, progress: &mut TransferProgress) -> Result<(), ()> {
        self.network_requests += 1;
        self.stream_requested = true;
        let limit = self.fail_after_chunks.unwrap_or(self.chunks.len());
        for i in 0..self.chunks.len() {
            if i >= limit {
                return Err(());
            }
            let chunk = self.chunks[i].clone();
            self.sink.extend_from_slice(&chunk);
            progress.record_chunk(chunk.len() as u64);
        }
        Ok(())
    }
}

#[test]
fn test_download_model() {
    let model_filename = "llongorca-7b-16k.ggmlv3.q5_K_M.bin";
    let transport = FakeDownloadTransport::new(
        Ok(Some("10".to_string())),
        vec![b"01234".to_vec(), b"56789".to_vec()],
    );
    let mut fetcher = HfFetcher { transport };
    let result = fetcher.download_model(
        &"TheBloke/LlongOrca-7B-16K-GGML".parse().unwrap(),
        model_filename,
    );
    assert!(result.is_ok());
}

#[test]
fn download_requests_resolve_url_for_default_branch() {
    let repo: RepoId = "org/repo".parse().unwrap();
    assert_eq!(
        resolve_url(&repo, "model.bin"),
        "https://huggingface.co/org/repo/resolve/main/model.bin"
    );
}

#[test]
fn download_with_unopenable_sink_fails_before_any_request() {
    let mut transport =
        FakeDownloadTransport::new(Ok(Some("4".to_string())), vec![b"data".to_vec()]);
    transport.sink_can_open = false;
    let mut fetcher = HfFetcher { transport };
    let result = fetcher.download_model(&"org/repo".parse().unwrap(), "model.bin");
    assert_eq!(result.unwrap_err(), FetchError::IoError);
    assert_eq!(fetcher.transport.network_requests, 0);
}

#[test]
fn download_without_content_length_fails_before_the_stream_request() {
    let transport = FakeDownloadTransport::new(Ok(None), vec![b"data".to_vec()]);
    let mut fetcher = HfFetcher { transport };
    let result = fetcher.download_model(&"org/repo".parse().unwrap(), "model.bin");
    assert_eq!(result.unwrap_err(), FetchError::MissingContentLength);
    assert!(!fetcher.transport.stream_requested);
    assert!(fetcher.transport.sink.is_empty());
}

#[test]
fn download_with_malformed_content_length_is_decode_error() {
    let transport = FakeDownloadTransport::new(Ok(Some("12cats".to_string())), Vec::new());
    let mut fetcher = HfFetcher { transport };
    let result = fetcher.download_model(&"org/repo".parse().unwrap(), "model.bin");
    assert_eq!(result.unwrap_err(), FetchError::DecodeError);
    assert!(!fetcher.transport.stream_requested);
}

#[test]
fn download_with_failed_probe_is_network_error() {
    let transport = FakeDownloadTransport::new(Err(()), Vec::new());
    let mut fetcher = HfFetcher { transport };
    let result = fetcher.download_model(&"org/repo".parse().unwrap(), "model.bin");
    assert_eq!(result.unwrap_err(), FetchError::NetworkError);
}

#[test]
fn successful_download_writes_exactly_the_stream_bytes() {
    let transport = FakeDownloadTransport::new(
        Ok(Some("10".to_string())),
        vec![b"012".to_vec(), b"34567".to_vec(), b"89".to_vec()],
    );
    let mut fetcher = HfFetcher { transport };
    let result = fetcher.download_model(&"org/repo".parse().unwrap(), "model.bin");
    assert_eq!(result.unwrap(), 10);
    assert_eq!(fetcher.transport.sink, b"0123456789".to_vec());
    assert_eq!(fetcher.transport.announced, Some(10));
}

#[test]
fn interrupted_download_keeps_the_bytes_written_so_far() {
    let mut transport = FakeDownloadTransport::new(
        Ok(Some("9".to_string())),
        vec![b"abcd".to_vec(), b"efghi".to_vec()],
    );
    transport.fail_after_chunks = Some(1);
    let mut fetcher = HfFetcher { transport };
    let result = fetcher.download_model(&"org/repo".parse().unwrap(), "model.bin");
    assert_eq!(result.unwrap_err(), FetchError::TransferError);
    assert_eq!(fetcher.transport.sink, b"abcd".to_vec());
}

#[test]
fn parse_content_length_reads_a_decimal_header() {
    assert_eq!(parse_content_length(&Some("42".to_string())), Ok(42));
    assert_eq!(parse_content_length(&Some("0".to_string())), Ok(0));
    assert_eq!(
        parse_content_length(&Some("18446744073709551615".to_string())),
        Ok(u64::MAX)
    );
}

#[test]
fn parse_content_length_missing_header() {
    assert_eq!(
        parse_content_length(&None),
        Err(FetchError::MissingContentLength)
    );
}

#[test]
fn parse_content_length_rejects_what_is_no_u64() {
    assert_eq!(
        parse_content_length(&Some(String::new())),
        Err(FetchError::DecodeError)
    );
    assert_eq!(
        parse_content_length(&Some("-1".to_string())),
        Err(FetchError::DecodeError)
    );
    assert_eq!(
        parse_content_length(&Some("12 ".to_string())),
        Err(FetchError::DecodeError)
    );
    assert_eq!(
        parse_content_length(&Some("18446744073709551616".to_string())),
        Err(FetchError::DecodeError)
    );
    assert_eq!(
        parse_content_length(&Some("99999999999999999999999".to_string())),
        Err(FetchError::DecodeError)
    );
}

#[test]
fn progress_counts_chunks_and_clamps_what_it_reports() {
    let mut progress = TransferProgress::new(10);
    progress.record_chunk(6);
    assert_eq!(progress.transferred, 6);
    assert_eq!(progress.reported(), 6);
    progress.record_chunk(7);
    assert_eq!(progress.transferred, 13);
    assert_eq!(progress.reported(), 10);
}

#[test]
fn progress_saturates_instead_of_overflowing() {
    let mut progress = TransferProgress::new(u64::MAX);
    progress.record_chunk(u64::MAX - 1);
    progress.record_chunk(5);
    assert_eq!(progress.transferred, u64::MAX);
}

#[test]
fn errors_describe_themselves() {
    assert_eq!(
        FetchError::InvalidFormat.describe(),
        "RepoId expects 'org/repo' format"
    );
    assert_eq!(FetchError::InvalidUrl.describe(), "Invalid repository URL");
    assert_eq!(
        FetchError::NetworkError.describe(),
        "Network request failed"
    );
    assert_eq!(FetchError::DecodeError.describe(), "Unexpected response shape");
    assert_eq!(
        FetchError::MissingContentLength.describe(),
        "Failed to read content-length header"
    );
    assert_eq!(FetchError::IoError.describe(), "Failed to open destination file");
    assert_eq!(
        FetchError::TransferError.describe(),
        "Transfer interrupted mid-stream"
    );
}
