//! What the worker and the server say to each other: addresses and bodies of the requests.

use crate::accel::{accel_name, HardwareAccel};
use crate::number::{decimal, decimal_text};
use crate::settings::Settings;
use crate::status::{means_success, HttpStatus};
use vstd::prelude::*;

verus! {

/// The body of a login request.
#[derive(Debug)]
pub struct LoginRequest {
    pub email: String,
    pub password: String,
    pub turnstile_token: String,
}

/// The body of the reply to a login.
#[derive(Debug)]
pub struct LoginResponse {
    pub token: String,
}

/// A job that waits for a worker.
#[derive(Debug)]
pub struct PendingJob {
    pub id: i64,
    pub raw_file_key: Option<String>,
    pub delete_raw_after: bool,
    pub title: Option<String>,
}

/// The body of a progress report.
#[derive(Debug)]
pub struct ProgressPayload {
    pub message: String,
}

/// The body of the request that completes a job.
#[derive(Debug)]
pub struct CompletePayload {
    pub hls_url: String,
}

/// What a worker knows once it has logged in and looked at its machine.
#[derive(Debug)]
pub struct WorkerConfig {
    pub api_base_url: String,
    pub token: String,
    pub s3_bucket: String,
    pub s3_public_url: String,
    pub ffmpeg_path: String,
    pub ffprobe_path: String,
    pub accel: HardwareAccel,
}

/// The address to log in at.
pub open spec fn login_address(base: Seq<char>) -> Seq<char> {
    base + "/api/v1/auth/login"@
}

/// The address that lists the jobs that wait.
pub open spec fn pending_address(base: Seq<char>) -> Seq<char> {
    base + "/api/v1/admin/transcode/pending"@
}

/// The address at which a job is claimed.
pub open spec fn claim_address(base: Seq<char>, id: i64) -> Seq<char> {
    base + "/api/v1/admin/transcode/claim/"@ + decimal(id as int)
}

/// The address that takes the progress of a job.
pub open spec fn progress_address(base: Seq<char>, id: i64) -> Seq<char> {
    base + "/api/v1/admin/transcode/progress/"@ + decimal(id as int)
}

/// The address at which a job is completed.
pub open spec fn complete_address(base: Seq<char>, id: i64) -> Seq<char> {
    base + "/api/v1/admin/transcode/complete/"@ + decimal(id as int)
}

/// The three texts one after the other.
pub(crate) fn join(a: &str, b: &str, c: &str) -> (text: String)
    ensures
        text@ == a@ + b@ + c@,
{
    let mut text = String::new();
    text.append(a);
    text.append(b);
    text.append(c);
    assert(text@ =~= a@ + b@ + c@);
    text
}

/// The address to log in at.
pub fn login_url(api_base_url: &str) -> (url: String)
    ensures
        url@ == login_address(api_base_url@),
{
    let url = join(api_base_url, "/api/v1/auth/login", "");
    proof {
        reveal_strlit("");
    }
    assert(url@ =~= login_address(api_base_url@));
    url
}

/// The body of the login of an administrator; the token stands for the answer to the
/// challenge that only people are asked.
pub fn login_request(email: &str, password: &str) -> (body: LoginRequest)
    ensures
        body.email@ == email@,
        body.password@ == password@,
        body.turnstile_token@ == "bypass-local-transcoder"@,
{
    LoginRequest {
        email: email.to_string(),
        password: password.to_string(),
        turnstile_token: "bypass-local-transcoder".to_string(),
    }
}

/// Whether the server accepted a login, or the error that tells its reply if it did not.
pub fn login_verdict(status: &HttpStatus, reply: &str) -> (verdict: Result<(), String>)
    ensures
        match verdict {
            Ok(_) => means_success(status@),
            Err(message) => !means_success(status@) && message@ == "Failed to login: "@ + reply@,
        },
{
    if status.is_success() {
        return Ok(());
    }
    let message = join("Failed to login: ", reply, "");
    proof {
        reveal_strlit("");
    }
    assert(message@ =~= "Failed to login: "@ + reply@);
    Err(message)
}

/// The headers with which a worker presents itself: its name, its operating system and its
/// hardware encoder.
pub fn worker_headers(name: &str, os: &str, accel: HardwareAccel) -> (headers: Vec<
    (&'static str, String),
>)
    ensures
        headers@.len() == 3,
        headers@[0].0@ == "X-Worker-Name"@ && headers@[0].1@ == name@,
        headers@[1].0@ == "X-Worker-OS"@ && headers@[1].1@ == os@,
        headers@[2].0@ == "X-Worker-Accel"@ && headers@[2].1@ == accel_name(accel),
{
    vec![
        ("X-Worker-Name", name.to_string()),
        ("X-Worker-OS", os.to_string()),
        ("X-Worker-Accel", accel.name().to_string()),
    ]
}

/// The body of a progress report.
pub fn progress_payload(message: &str) -> (payload: ProgressPayload)
    ensures
        payload.message@ == message@,
{
    ProgressPayload { message: message.to_string() }
}

impl WorkerConfig {
    /// What a worker knows, from its settings, the reply to its login and its machine.
    pub fn new(settings: Settings, login: LoginResponse, accel: HardwareAccel) -> (config:
        WorkerConfig)
        ensures
            config.api_base_url == settings.api_base_url,
            config.token == login.token,
            config.s3_bucket == settings.s3_bucket,
            config.s3_public_url == settings.s3_public_url,
            config.ffmpeg_path == settings.ffmpeg_path,
            config.ffprobe_path == settings.ffprobe_path,
            config.accel == accel,
    {
        WorkerConfig {
            api_base_url: settings.api_base_url,
            token: login.token,
            s3_bucket: settings.s3_bucket,
            s3_public_url: settings.s3_public_url,
            ffmpeg_path: settings.ffmpeg_path,
            ffprobe_path: settings.ffprobe_path,
            accel,
        }
    }

    /// The address that lists the jobs that wait.
    pub fn pending_url(&self) -> (url: String)
        ensures
            url@ == pending_address(self.api_base_url@),
    {
        let url = join(self.api_base_url.as_str(), "/api/v1/admin/transcode/pending", "");
        proof {
            reveal_strlit("");
        }
        assert(url@ =~= pending_address(self.api_base_url@));
        url
    }

    /// The address at which a job is claimed.
    pub fn claim_url(&self, id: i64) -> (url: String)
        ensures
            url@ == claim_address(self.api_base_url@, id),
    {
        join(
            self.api_base_url.as_str(),
            "/api/v1/admin/transcode/claim/",
            decimal_text(id).as_str(),
        )
    }

    /// The address that takes the progress of a job.
    pub fn progress_url(&self, id: i64) -> (url: String)
        ensures
            url@ == progress_address(self.api_base_url@, id),
    {
        join(
            self.api_base_url.as_str(),
            "/api/v1/admin/transcode/progress/",
            decimal_text(id).as_str(),
        )
    }

    /// The address at which a job is completed.
    pub fn complete_url(&self, id: i64) -> (url: String)
        ensures
            url@ == complete_address(self.api_base_url@, id),
    {
        join(
            self.api_base_url.as_str(),
            "/api/v1/admin/transcode/complete/",
            decimal_text(id).as_str(),
        )
    }
}

/// The addresses of a job stand under the address of the server, and differ in what is asked of
/// the job and in its number.
pub proof fn law_addresses_are_under_the_base(base: Seq<char>, id: i64)
    ensures
        login_address(base) == base + "/api/v1/"@ + "auth/login"@,
        pending_address(base) == base + "/api/v1/"@ + "admin/transcode/"@ + "pending"@,
        ({
            let front = base + "/api/v1/"@ + "admin/transcode/"@;
            let number = "/"@ + decimal(id as int);
            &&& claim_address(base, id) == front + "claim"@ + number
            &&& progress_address(base, id) == front + "progress"@ + number
            &&& complete_address(base, id) == front + "complete"@ + number
        }),
{
    reveal_strlit("/api/v1/");
    reveal_strlit("auth/login");
    reveal_strlit("admin/transcode/");
    reveal_strlit("pending");
    reveal_strlit("/");
    reveal_strlit("claim");
    reveal_strlit("progress");
    reveal_strlit("complete");
    reveal_strlit("/api/v1/auth/login");
    reveal_strlit("/api/v1/admin/transcode/pending");
    reveal_strlit("/api/v1/admin/transcode/claim/");
    reveal_strlit("/api/v1/admin/transcode/progress/");
    reveal_strlit("/api/v1/admin/transcode/complete/");
    let front = base + "/api/v1/"@ + "admin/transcode/"@;
    let number = "/"@ + decimal(id as int);
    assert(login_address(base) =~= base + "/api/v1/"@ + "auth/login"@);
    assert(pending_address(base) =~= front + "pending"@);
    assert(claim_address(base, id) =~= front + "claim"@ + number);
    assert(progress_address(base, id) =~= front + "progress"@ + number);
    assert(complete_address(base, id) =~= front + "complete"@ + number);
}

/// A login is refused exactly when the code of the reply does not begin with 2, and the error then
/// tells the whole reply.
pub proof fn law_logins_go_by_their_code(
    status: HttpStatus,
    reply: &str,
    verdict: Result<(), String>,
)
    requires
        call_ensures(login_verdict, (&status, reply), verdict),
    ensures
        verdict is Ok <==> status@ / 100 == 2,
        verdict matches Err(message) ==> message@ == "Failed to login: "@ + reply@,
{
}

/// What is told to the server is what was given: who logs in, who the worker is and how far it is.
pub proof fn law_bodies_hold_what_was_given(
    texts: (&str, &str),
    accel: HardwareAccel,
    login: LoginRequest,
    headers: Vec<(&'static str, String)>,
    progress: ProgressPayload,
)
    requires
        call_ensures(login_request, (texts.0, texts.1), login),
        call_ensures(worker_headers, (texts.0, texts.1, accel), headers),
        call_ensures(progress_payload, (texts.0,), progress),
    ensures
        login.email@ == texts.0@ && login.password@ == texts.1@,
        login.turnstile_token@ == "bypass-local-transcoder"@,
        headers@.len() == 3,
        headers@[0].0@ == "X-Worker-Name"@ && headers@[0].1@ == texts.0@,
        headers@[1].0@ == "X-Worker-OS"@ && headers@[1].1@ == texts.1@,
        headers@[2].0@ == "X-Worker-Accel"@ && headers@[2].1@ == match accel {
            HardwareAccel::Absent => "None"@,
            HardwareAccel::Nvenc => "Nvenc"@,
            HardwareAccel::VideoToolbox => "VideoToolbox"@,
        },
        progress.message@ == texts.0@,
{
}

/// A worker asks at the addresses under the server of its settings.
pub proof fn law_worker_asks_under_its_server(
    settings: Settings,
    login: LoginResponse,
    accel: HardwareAccel,
    config: WorkerConfig,
    id: i64,
    urls: (String, String, String, String),
)
    requires
        call_ensures(WorkerConfig::new, (settings, login, accel), config),
        call_ensures(WorkerConfig::pending_url, (&config,), urls.0),
        call_ensures(WorkerConfig::claim_url, (&config, id), urls.1),
        call_ensures(WorkerConfig::progress_url, (&config, id), urls.2),
        call_ensures(WorkerConfig::complete_url, (&config, id), urls.3),
    ensures
        config.token == login.token,
        config.accel == accel,
        config.s3_bucket == settings.s3_bucket,
        config.s3_public_url == settings.s3_public_url,
        config.ffmpeg_path == settings.ffmpeg_path,
        config.ffprobe_path == settings.ffprobe_path,
        ({
            let front = settings.api_base_url@ + "/api/v1/"@ + "admin/transcode/"@;
            let number = "/"@ + decimal(id as int);
            &&& urls.0@ == front + "pending"@
            &&& urls.1@ == front + "claim"@ + number
            &&& urls.2@ == front + "progress"@ + number
            &&& urls.3@ == front + "complete"@ + number
        }),
{
    law_addresses_are_under_the_base(settings.api_base_url@, id);
}

} // verus!
