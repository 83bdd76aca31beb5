//! The settings of a worker, from the variables of its environment.

use vstd::prelude::*;

verus! {

/// The variables that a worker reads, as far as they are set.
#[derive(Debug)]
pub struct Variables {
    pub api_base_url: Option<String>,
    pub admin_email: Option<String>,
    pub admin_password: Option<String>,
    pub r2_endpoint: Option<String>,
    pub r2_access_key: Option<String>,
    pub r2_secret_key: Option<String>,
    pub r2_bucket: Option<String>,
    pub r2_public_url: Option<String>,
    pub ffmpeg_path: Option<String>,
    pub ffprobe_path: Option<String>,
}

/// The settings of a worker.
#[derive(Debug)]
pub struct Settings {
    pub api_base_url: String,
    pub email: String,
    pub password: String,
    pub s3_endpoint: String,
    pub s3_access_key: String,
    pub s3_secret_key: String,
    pub s3_bucket: String,
    pub s3_public_url: String,
    pub ffmpeg_path: String,
    pub ffprobe_path: String,
}

/// The first variable that has to be set and is not.
pub open spec fn first_missing(vars: Variables) -> Option<&'static str> {
    if vars.admin_email is None {
        Some("ADMIN_EMAIL")
    } else if vars.admin_password is None {
        Some("ADMIN_PASSWORD")
    } else if vars.r2_endpoint is None {
        Some("R2_ENDPOINT")
    } else if vars.r2_access_key is None {
        Some("R2_ACCESS_KEY")
    } else if vars.r2_secret_key is None {
        Some("R2_SECRET_KEY")
    } else if vars.r2_bucket is None {
        Some("R2_BUCKET")
    } else if vars.r2_public_url is None {
        Some("R2_PUBLIC_URL")
    } else {
        None
    }
}

/// The value of a variable, or a default for one that is not set.
pub open spec fn value_or(value: Option<String>, default: Seq<char>) -> Seq<char> {
    match value {
        Some(text) => text@,
        None => default,
    }
}

/// The settings are those that the variables give.
pub open spec fn settings_match(s: Settings, vars: Variables) -> bool {
    &&& s.api_base_url@ == value_or(vars.api_base_url, "http://localhost:8080"@)
    &&& vars.admin_email == Some(s.email)
    &&& vars.admin_password == Some(s.password)
    &&& vars.r2_endpoint == Some(s.s3_endpoint)
    &&& vars.r2_access_key == Some(s.s3_access_key)
    &&& vars.r2_secret_key == Some(s.s3_secret_key)
    &&& vars.r2_bucket == Some(s.s3_bucket)
    &&& vars.r2_public_url == Some(s.s3_public_url)
    &&& s.ffmpeg_path@ == value_or(vars.ffmpeg_path, "ffmpeg"@)
    &&& s.ffprobe_path@ == value_or(vars.ffprobe_path, "ffprobe"@)
}

/// The value of a variable, or a default for one that is not set.
fn or_default(value: Option<String>, default: &str) -> (text: String)
    ensures
        text@ == value_or(value, default@),
{
    match value {
        Some(text) => text,
        None => default.to_string(),
    }
}

impl Settings {
    /// The settings that the variables give, or the name of the first variable that has to
    /// be set and is not.
    pub fn from_variables(vars: Variables) -> (settings: Result<Settings, &'static str>)
        ensures
            match settings {
                Ok(s) => first_missing(vars) is None && settings_match(s, vars),
                Err(name) => first_missing(vars) == Some(name),
            },
    {
        let email = match vars.admin_email {
            Some(value) => value,
            None => {
                return Err("ADMIN_EMAIL");
            },
        };
        let password = match vars.admin_password {
            Some(value) => value,
            None => {
                return Err("ADMIN_PASSWORD");
            },
        };
        let s3_endpoint = match vars.r2_endpoint {
            Some(value) => value,
            None => {
                return Err("R2_ENDPOINT");
            },
        };
        let s3_access_key = match vars.r2_access_key {
            Some(value) => value,
            None => {
                return Err("R2_ACCESS_KEY");
            },
        };
        let s3_secret_key = match vars.r2_secret_key {
            Some(value) => value,
            None => {
                return Err("R2_SECRET_KEY");
            },
        };
        let s3_bucket = match vars.r2_bucket {
            Some(value) => value,
            None => {
                return Err("R2_BUCKET");
            },
        };
        let s3_public_url = match vars.r2_public_url {
            Some(value) => value,
            None => {
                return Err("R2_PUBLIC_URL");
            },
        };
        Ok(
            Settings {
                api_base_url: or_default(vars.api_base_url, "http://localhost:8080"),
                email,
                password,
                s3_endpoint,
                s3_access_key,
                s3_secret_key,
                s3_bucket,
                s3_public_url,
                ffmpeg_path: or_default(vars.ffmpeg_path, "ffmpeg"),
                ffprobe_path: or_default(vars.ffprobe_path, "ffprobe"),
            },
        )
    }
}

/// The variables that have to be set, in the order in which they are asked for.
pub open spec fn required(vars: Variables) -> Seq<(&'static str, Option<String>)> {
    seq![
        ("ADMIN_EMAIL", vars.admin_email),
        ("ADMIN_PASSWORD", vars.admin_password),
        ("R2_ENDPOINT", vars.r2_endpoint),
        ("R2_ACCESS_KEY", vars.r2_access_key),
        ("R2_SECRET_KEY", vars.r2_secret_key),
        ("R2_BUCKET", vars.r2_bucket),
        ("R2_PUBLIC_URL", vars.r2_public_url),
    ]
}

/// The variable that is named as missing is the first of the required ones that is not set,
/// whatever the later ones and the ones with a default are.
pub proof fn law_first_missing_is_named(vars: Variables, k: int)
    requires
        0 <= k < required(vars).len(),
        required(vars)[k].1 is None,
        forall|j: int| 0 <= j < k ==> (#[trigger] required(vars)[j]).1 is Some,
    ensures
        first_missing(vars) == Some(required(vars)[k].0),
{
    let list = required(vars);
    assert(k > 0 ==> list[0].1 is Some);
    assert(k > 1 ==> list[1].1 is Some);
    assert(k > 2 ==> list[2].1 is Some);
    assert(k > 3 ==> list[3].1 is Some);
    assert(k > 4 ==> list[4].1 is Some);
    assert(k > 5 ==> list[5].1 is Some);
}

/// A worker whose required variables are all set, to whatever values, misses none.
pub proof fn law_nothing_else_is_missing(vars: Variables)
    requires
        forall|j: int| 0 <= j < 7 ==> (#[trigger] required(vars)[j]).1 is Some,
    ensures
        first_missing(vars) is None,
{
    let list = required(vars);
    assert(list[0].1 is Some && list[1].1 is Some && list[2].1 is Some && list[3].1 is Some);
    assert(list[4].1 is Some && list[5].1 is Some && list[6].1 is Some);
}

/// Each setting is the value of its variable, be it empty or not. The address of the server and
/// the two programs have a default, which counts only where the variable is not set.
pub proof fn law_settings_are_the_values(s: Settings, vars: Variables)
    requires
        settings_match(s, vars),
    ensures
        vars.admin_email matches Some(value) && s.email@ == value@,
        vars.admin_password matches Some(value) && s.password@ == value@,
        vars.r2_endpoint matches Some(value) && s.s3_endpoint@ == value@,
        vars.r2_access_key matches Some(value) && s.s3_access_key@ == value@,
        vars.r2_secret_key matches Some(value) && s.s3_secret_key@ == value@,
        vars.r2_bucket matches Some(value) && s.s3_bucket@ == value@,
        vars.r2_public_url matches Some(value) && s.s3_public_url@ == value@,
        vars.api_base_url matches Some(value) ==> s.api_base_url@ == value@,
        vars.ffmpeg_path matches Some(value) ==> s.ffmpeg_path@ == value@,
        vars.ffprobe_path matches Some(value) ==> s.ffprobe_path@ == value@,
        vars.api_base_url is None ==> s.api_base_url@ == "http://localhost:8080"@,
        vars.ffmpeg_path is None ==> s.ffmpeg_path@ == "ffmpeg"@,
        vars.ffprobe_path is None ==> s.ffprobe_path@ == "ffprobe"@,
{
}

/// Settings are given exactly when every required variable is set.
pub proof fn law_settings_need_every_required_variable(
    vars: Variables,
    settings: Result<Settings, &'static str>,
)
    requires
        call_ensures(Settings::from_variables, (vars,), settings),
    ensures
        settings is Ok <==> {
            &&& vars.admin_email is Some
            &&& vars.admin_password is Some
            &&& vars.r2_endpoint is Some
            &&& vars.r2_access_key is Some
            &&& vars.r2_secret_key is Some
            &&& vars.r2_bucket is Some
            &&& vars.r2_public_url is Some
        },
        settings matches Ok(s) ==> settings_match(s, vars),
        settings matches Err(name) ==> exists|k: int|
            0 <= k < 7 && (#[trigger] required(vars)[k]).1 is None && required(vars)[k].0 == name,
{
    let list = required(vars);
    assert(list[0].1 == vars.admin_email && list[1].1 == vars.admin_password);
    assert(list[2].1 == vars.r2_endpoint && list[3].1 == vars.r2_access_key);
    assert(list[4].1 == vars.r2_secret_key && list[5].1 == vars.r2_bucket);
    assert(list[6].1 == vars.r2_public_url);
}

} // verus!
