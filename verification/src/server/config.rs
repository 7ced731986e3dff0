//! The server's configuration: its defaults, the repair of older saved files and the
//! settings taken from the environment.
use vstd::prelude::*;
use crate::ffmpeg::FFMpeg;
use crate::numbers::{parse_u16, parsed_unsigned};
use crate::system::{is_uuid_v4_text, new_uuid_v4};
use crate::text::{chars_of, owned};

verus! {

/// The server's configuration.
#[derive(Debug)]
pub struct Configuration {
    pub port: u16,
    pub ffmpeg: FFMpeg,
    pub watch_directories: Vec<String>,
    pub server_guid: String,
    pub jwt_secret: String,
    pub ffmpeg_template: String,
    pub output_container: String,
    pub client_timeout_seconds: u64,
    pub notify_batch_interval_seconds: u64,
}

/// The port the server listens on by default.
pub const DEFAULT_PORT: u16 = 7456;

/// The FFmpeg command template used by default.
pub open spec fn default_template() -> Seq<char> {
    "-i {INPUT} -map 0 -c:v h264{HWACCEL_CODE} -b:v 5M -maxrate 8M -bufsize 8M -profile:v high -vf \"scale='min(1920,iw)':-2\" -c:a aac -b:a 320k {OUTPUT}"@
}

impl Configuration {
    /// The default configuration: port 7456, no binaries located yet, no watched
    /// directories, a fresh random server id and signing secret, the default template,
    /// `mkv` output, a 300 second client timeout and a 30 second notification batch
    /// interval.
    pub fn default_config() -> (res: Self)
        ensures
            res.port == DEFAULT_PORT,
            res.ffmpeg.ffmpeg_path_view().len() == 0,
            res.ffmpeg.ffprobe_path_view().len() == 0,
            res.watch_directories@.len() == 0,
            is_uuid_v4_text(res.server_guid@),
            is_uuid_v4_text(res.jwt_secret@),
            res.ffmpeg_template@ == default_template(),
            res.output_container@ == "mkv"@,
            res.client_timeout_seconds == 300,
            res.notify_batch_interval_seconds == 30,
    {
        Configuration {
            port: DEFAULT_PORT,
            ffmpeg: FFMpeg::default(),
            watch_directories: Vec::new(),
            server_guid: new_uuid_v4(),
            jwt_secret: new_uuid_v4(),
            ffmpeg_template: owned(
                "-i {INPUT} -map 0 -c:v h264{HWACCEL_CODE} -b:v 5M -maxrate 8M -bufsize 8M -profile:v high -vf \"scale='min(1920,iw)':-2\" -c:a aac -b:a 320k {OUTPUT}",
            ),
            output_container: owned("mkv"),
            client_timeout_seconds: 300,
            notify_batch_interval_seconds: 30,
        }
    }

    /// Repairs a configuration saved by an older version: an empty signing secret is
    /// replaced by a fresh random one and an empty output container by `mp4`. Returns
    /// whether anything changed (and so must be saved).
    pub fn fill_missing(&mut self) -> (changed: bool)
        ensures
            changed == (old(self).jwt_secret@.len() == 0 || old(self).output_container@.len() == 0),
            old(self).jwt_secret@.len() == 0 ==> is_uuid_v4_text(final(self).jwt_secret@),
            old(self).jwt_secret@.len() > 0 ==> final(self).jwt_secret == old(self).jwt_secret,
            old(self).output_container@.len() == 0 ==> final(self).output_container@ == "mp4"@,
            old(self).output_container@.len() > 0 ==> final(self).output_container
                == old(self).output_container,
            *final(self) == (Configuration {
                jwt_secret: final(self).jwt_secret,
                output_container: final(self).output_container,
                ..*old(self)
            }),
    {
        let mut changed = false;
        if chars_of(self.jwt_secret.as_str()).len() == 0 {
            self.jwt_secret = new_uuid_v4();
            changed = true;
        }
        if chars_of(self.output_container.as_str()).len() == 0 {
            self.output_container = owned("mp4");
            changed = true;
        }
        changed
    }

    /// Applies the settings given in the environment, in this order, stopping at the
    /// first error: `FFNODE_PORT` (which must read as a port number, else
    /// [`ConfigError::InvalidPort`]), `FFNODE_OUTPUT_CONTAINER`,
    /// `FFNODE_WATCH_DIRECTORIES` (a JSON list, read by the caller; a reading error is
    /// [`ConfigError::WatchDirectories`]) and `FFNODE_FFMPEG_TEMPLATE`. An absent
    /// variable leaves its setting as it is.
    pub fn apply_env(
        &mut self,
        port: Option<&str>,
        output_container: Option<String>,
        watch_directories: Option<Result<Vec<String>, String>>,
        ffmpeg_template: Option<String>,
    ) -> (res: Result<(), ConfigError>)
        ensures
            port matches Some(p) && parsed_unsigned(p@, u16::MAX as nat) is None ==> (res
                matches Err(ConfigError::InvalidPort) && final(self).port == old(self).port
                && final(self).output_container == old(self).output_container
                && final(self).watch_directories == old(self).watch_directories
                && final(self).ffmpeg_template == old(self).ffmpeg_template),
            !(port matches Some(p) && parsed_unsigned(p@, u16::MAX as nat) is None) ==> {
                &&& final(self).port == (match port {
                    Some(p) => parsed_unsigned(p@, u16::MAX as nat)->Some_0 as u16,
                    None => old(self).port,
                })
                &&& final(self).output_container == (match output_container {
                    Some(c) => c,
                    None => old(self).output_container,
                })
                &&& match watch_directories {
                    Some(Err(e)) => (res matches Err(ConfigError::WatchDirectories(m)) && m == e)
                        && final(self).watch_directories == old(self).watch_directories
                        && final(self).ffmpeg_template == old(self).ffmpeg_template,
                    Some(Ok(d)) => res is Ok && final(self).watch_directories == d
                        && final(self).ffmpeg_template == (match ffmpeg_template {
                        Some(t) => t,
                        None => old(self).ffmpeg_template,
                    }),
                    None => res is Ok && final(self).watch_directories == old(
                        self,
                    ).watch_directories && final(self).ffmpeg_template == (match ffmpeg_template {
                        Some(t) => t,
                        None => old(self).ffmpeg_template,
                    }),
                }
            },
            final(self).server_guid == old(self).server_guid,
            final(self).jwt_secret == old(self).jwt_secret,
    {
        if let Some(p) = port {
            match parse_u16(p) {
                Some(v) => {
                    self.port = v;
                },
                None => {
                    return Err(ConfigError::InvalidPort);
                },
            }
        }
        if let Some(c) = output_container {
            self.output_container = c;
        }
        if let Some(d) = watch_directories {
            match d {
                Ok(dirs) => {
                    self.watch_directories = dirs;
                },
                Err(e) => {
                    return Err(ConfigError::WatchDirectories(e));
                },
            }
        }
        if let Some(t) = ffmpeg_template {
            self.ffmpeg_template = t;
        }
        Ok(())
    }
}

/// Why the environment's settings could not be applied.
#[derive(Debug)]
pub enum ConfigError {
    /// `FFNODE_PORT` is not a port number.
    InvalidPort,
    /// `FFNODE_WATCH_DIRECTORIES` could not be read (the reason given).
    WatchDirectories(String),
}

impl ConfigError {
    /// The message of the error.
    pub fn message(&self) -> (res: String)
        ensures
            self is InvalidPort ==> res@ == "FFNODE_PORT must be a valid integer"@,
            self matches ConfigError::WatchDirectories(e) ==> res == e,
    {
        match self {
            ConfigError::InvalidPort => owned("FFNODE_PORT must be a valid integer"),
            ConfigError::WatchDirectories(e) => e.clone(),
        }
    }
}

/// The watched directories that could be resolved, in order (those that could not are
/// dropped).
pub fn resolved_directories(resolved: Vec<Option<String>>) -> (res: Vec<String>)
    ensures
        res@ == resolved@.filter(|r: Option<String>| r is Some).map_values(
            |r: Option<String>| r->Some_0,
        ),
{
    let mut res: Vec<String> = Vec::new();
    let mut k: usize = 0;
    while k < resolved.len()
        invariant
            k <= resolved.len(),
            res@ == resolved@.take(k as int).filter(|r: Option<String>| r is Some).map_values(
                |r: Option<String>| r->Some_0,
            ),
        decreases resolved.len() - k,
    {
        proof {
            reveal(Seq::filter);
            let t = resolved@.take(k + 1);
            assert(t.drop_last() =~= resolved@.take(k as int));
            assert(t.last() == resolved@[k as int]);
        }
        match &resolved[k] {
            Some(d) => {
                let ghost f = resolved@.take(k as int).filter(|r: Option<String>| r is Some);
                res.push(d.clone());
                assert(f.push(resolved@[k as int]).map_values(|r: Option<String>| r->Some_0) =~= f.map_values(
                    |r: Option<String>| r->Some_0,
                ).push(resolved@[k as int]->Some_0));
            },
            None => {},
        }
        k = k + 1;
    }
    assert(resolved@.take(resolved.len() as int) =~= resolved@);
    res
}

/// The template a new configuration starts with: the input, all its streams mapped,
/// H.264 on the machine's hardware encoder at 5 Mbit/s (at most 8), high profile, scaled
/// down to at most 1920 wide, AAC audio at 320 kbit/s, then the output.
pub proof fn default_template_text()
    ensures
        default_template()
            == "-i {INPUT} -map 0 -c:v h264{HWACCEL_CODE} -b:v 5M -maxrate 8M -bufsize 8M -profile:v high -vf \"scale='min(1920,iw)':-2\" -c:a aac -b:a 320k {OUTPUT}"@,
{
}

} // verus!
