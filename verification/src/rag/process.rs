//! The retrieval service as a process: how it is launched, and how long to
//! wait for it.
use vstd::prelude::*;
use vstd::string::*;

use crate::json::opt_view;
use crate::stt::sidecar::env_views;
use crate::text::{decimal, decimal_text, hex_char, views};

verus! {

pub const RAG_PORT: u16 = 8100;

/// How long to wait for the service, in milliseconds.
pub const HEALTHY_WITHIN_MS: u64 = 60_000;

/// The address of the service.
pub open spec fn base_url_text() -> Seq<char> {
    "http://127.0.0.1:"@ + decimal(RAG_PORT as nat)
}

/// Bytes in hexadecimal notation, two digits each.
pub open spec fn hex_bytes(bytes: Seq<u8>) -> Seq<char>
    decreases bytes.len(),
{
    if bytes.len() == 0 {
        Seq::empty()
    } else {
        hex_bytes(bytes.drop_last()).push(hex_char((bytes.last() / 16) as nat)).push(
            hex_char((bytes.last() % 16) as nat),
        )
    }
}

fn hex_digit(d: u8) -> (r: char)
    requires
        d < 16,
    ensures
        r == hex_char(d as nat),
{
    if d < 10 {
        (48u8 + d) as char
    } else {
        (87u8 + d) as char
    }
}

/// The token that the service is to ask for, made of random bytes.
pub fn token_text(bytes: &[u8]) -> (r: String)
    ensures
        r@ == hex_bytes(bytes@),
{
    let mut out: String = String::new();
    let mut i: usize = 0;
    proof {
        assert(bytes@.take(0) =~= Seq::empty());
    }
    while i < bytes.len()
        invariant
            i <= bytes@.len(),
            out@ == hex_bytes(bytes@.take(i as int)),
        decreases bytes@.len() - i,
    {
        proof {
            assert(bytes@.take(i as int + 1).drop_last() =~= bytes@.take(i as int));
        }
        let b: u8 = bytes[i];
        out.push(hex_digit(b / 16));
        out.push(hex_digit(b % 16));
        i += 1;
    }
    proof {
        assert(bytes@.take(i as int) =~= bytes@);
    }
    out
}

/// How the service computes embeddings.
#[derive(Debug, Clone, Copy)]
pub struct EmbedProcessConfig {
    pub embed_batch_size: u32,
    pub torch_threads: u32,
}

/// How the service is launched.
#[derive(Debug)]
pub struct RagLaunch {
    pub program: String,
    pub args: Vec<String>,
    pub env: Vec<(String, String)>,
    /// Whether it runs in the folder of the package.
    pub in_package_dir: bool,
}

/// The view of a launch.
pub struct RagLaunchView {
    pub program: Seq<char>,
    pub args: Seq<Seq<char>>,
    pub env: Seq<(Seq<char>, Seq<char>)>,
    pub in_package_dir: bool,
}

impl RagLaunch {
    pub open spec fn view(&self) -> RagLaunchView {
        RagLaunchView {
            program: self.program@,
            args: views(self.args@),
            env: env_views(self.env@),
            in_package_dir: self.in_package_dir,
        }
    }
}

/// The variables that every launch has.
pub open spec fn common_env(config: EmbedProcessConfig, token: Seq<char>) -> Seq<
    (Seq<char>, Seq<char>),
> {
    seq![
        ("RAG_EMBED_BATCH_SIZE"@, decimal(config.embed_batch_size as nat)),
        ("RAG_TORCH_THREADS"@, decimal(config.torch_threads as nat)),
        ("RAG_INTERNAL_TOKEN"@, token),
    ]
}

/// How the service is launched: the packaged program if there is one, else the
/// module under the development environment, else not at all.
pub open spec fn rag_launch(
    frozen: Option<Seq<char>>,
    python: Option<Seq<char>>,
    config: EmbedProcessConfig,
    token: Seq<char>,
) -> Option<RagLaunchView> {
    let port = decimal(RAG_PORT as nat);
    match frozen {
        Some(program) => Some(
            RagLaunchView {
                program,
                args: Seq::empty(),
                env: seq![("RAG_PORT"@, port), ("RAG_ENV"@, "production"@)] + common_env(
                    config,
                    token,
                ),
                in_package_dir: false,
            },
        ),
        None => match python {
            Some(program) => Some(
                RagLaunchView {
                    program,
                    args: seq![
                        "-m"@,
                        "uvicorn"@,
                        "app.main:app"@,
                        "--host"@,
                        "127.0.0.1"@,
                        "--port"@,
                        port,
                    ],
                    env: common_env(config, token),
                    in_package_dir: true,
                },
            ),
            None => None,
        },
    }
}

/// The retrieval service's process: whether one is running.
#[derive(Debug)]
pub struct RagServiceHandle {
    running: bool,
}

impl RagServiceHandle {
    /// Whether a process is running.
    pub closed spec fn view(&self) -> bool {
        self.running
    }

    /// The address of the service.
    pub fn base_url() -> (r: String)
        ensures
            r@ == base_url_text(),
    {
        let mut url: String = "http://127.0.0.1:".to_owned();
        let port: String = decimal_text(RAG_PORT as u64);
        url.append(port.as_str());
        url
    }

    /// Decides how the service is launched. Without program and environment
    /// there is no service, which is no error.
    pub fn plan_spawn(
        frozen: &Option<String>,
        python: &Option<String>,
        config: EmbedProcessConfig,
        token: &str,
    ) -> (r: Option<RagLaunch>)
        ensures
            match r {
                Some(l) => rag_launch(opt_view(*frozen), opt_view(*python), config, token@)
                    == Some(l@),
                None => rag_launch(opt_view(*frozen), opt_view(*python), config, token@) is None,
            },
    {
        let batch: String = decimal_text(config.embed_batch_size as u64);
        let threads: String = decimal_text(config.torch_threads as u64);
        let port: String = decimal_text(RAG_PORT as u64);
        if let Some(program) = frozen {
            let args: Vec<String> = Vec::new();
            let env: Vec<(String, String)> = vec![
                ("RAG_PORT".to_owned(), port),
                ("RAG_ENV".to_owned(), "production".to_owned()),
                ("RAG_EMBED_BATCH_SIZE".to_owned(), batch),
                ("RAG_TORCH_THREADS".to_owned(), threads),
                ("RAG_INTERNAL_TOKEN".to_owned(), token.to_owned()),
            ];
            proof {
                let want = rag_launch(opt_view(*frozen), opt_view(*python), config, token@)->0;
                assert(views(args@) =~= want.args);
                assert(env_views(env@) =~= want.env);
            }
            Some(RagLaunch { program: program.clone(), args, env, in_package_dir: false })
        } else if let Some(program) = python {
            let args: Vec<String> = vec![
                "-m".to_owned(),
                "uvicorn".to_owned(),
                "app.main:app".to_owned(),
                "--host".to_owned(),
                "127.0.0.1".to_owned(),
                "--port".to_owned(),
                port,
            ];
            let env: Vec<(String, String)> = vec![
                ("RAG_EMBED_BATCH_SIZE".to_owned(), batch),
                ("RAG_TORCH_THREADS".to_owned(), threads),
                ("RAG_INTERNAL_TOKEN".to_owned(), token.to_owned()),
            ];
            proof {
                let want = rag_launch(opt_view(*frozen), opt_view(*python), config, token@)->0;
                assert(views(args@) =~= want.args);
                assert(env_views(env@) =~= want.env);
            }
            Some(RagLaunch { program: program.clone(), args, env, in_package_dir: true })
        } else {
            None
        }
    }

    /// A process that was launched.
    pub fn launched() -> (r: RagServiceHandle)
        ensures
            r@,
    {
        RagServiceHandle { running: true }
    }

    /// Whether a process has to be ended: the one that runs, once.
    pub fn shutdown(&mut self) -> (r: bool)
        ensures
            r == old(self)@,
            !final(self)@,
    {
        let had: bool = self.running;
        self.running = false;
        had
    }

    /// What comes of launching again, after the process was ended: `spawned`
    /// is what launching gave.
    pub fn restart(&mut self, spawned: Result<bool, String>) -> (r: Result<(), String>)
        ensures
            match spawned {
                Ok(true) => r is Ok && final(self)@,
                Ok(false) => {
                    &&& r matches Err(e) && e@ == "RAG service venv not found — cannot restart"@
                    &&& !final(self)@
                },
                Err(m) => r matches Err(e) && e@ == m@ && !final(self)@,
            },
    {
        self.running = false;
        match spawned {
            Ok(true) => {
                self.running = true;
                Ok(())
            },
            Ok(false) => Err("RAG service venv not found — cannot restart".to_owned()),
            Err(m) => Err(m),
        }
    }
}

/// What to do while waiting for the service.
#[derive(Debug, Clone, Copy, PartialEq, Eq, Structural)]
pub enum WaitAction {
    /// Ask the service whether it is healthy.
    Ask,
    /// Wait a moment, then go on waiting.
    Pause,
    /// The service is healthy.
    Healthy,
    /// The time is up.
    GiveUp,
}

/// What is known while waiting for the service.
#[derive(Debug, Clone, Copy, PartialEq, Eq, Structural)]
pub enum WaitInput {
    /// The present time.
    Time(u64),
    /// The service was asked and said whether it is healthy.
    Answer(bool),
}

/// What to do while waiting until `deadline_ms`: ask as long as the time is
/// not up, and stop at the first good answer.
pub open spec fn wait_step(deadline_ms: u64, input: WaitInput) -> WaitAction {
    match input {
        WaitInput::Time(now_ms) => if now_ms < deadline_ms {
            WaitAction::Ask
        } else {
            WaitAction::GiveUp
        },
        WaitInput::Answer(true) => WaitAction::Healthy,
        WaitInput::Answer(false) => WaitAction::Pause,
    }
}

/// Decides what to do while waiting for the service.
pub fn wait_until_healthy(deadline_ms: u64, input: WaitInput) -> (r: WaitAction)
    ensures
        r == wait_step(deadline_ms, input),
{
    match input {
        WaitInput::Time(now_ms) => if now_ms < deadline_ms {
            WaitAction::Ask
        } else {
            WaitAction::GiveUp
        },
        WaitInput::Answer(healthy) => if healthy {
            WaitAction::Healthy
        } else {
            WaitAction::Pause
        },
    }
}

/// When to stop waiting, where nothing else is set.
pub fn wait_until_healthy_default(now_ms: u64) -> (r: u64)
    ensures
        r == (if now_ms + HEALTHY_WITHIN_MS > u64::MAX {
            u64::MAX as int
        } else {
            now_ms + HEALTHY_WITHIN_MS
        }),
{
    now_ms.saturating_add(HEALTHY_WITHIN_MS)
}

/// A token is written byte by byte, each as its two hexadecimal digits.
pub proof fn a_token_is_written_byte_by_byte(a: Seq<u8>, b: Seq<u8>, byte: u8)
    ensures
        hex_bytes(a + b) == hex_bytes(a) + hex_bytes(b),
        hex_bytes(a).len() == 2 * a.len(),
        hex_bytes(seq![byte]) == seq![hex_char((byte / 16) as nat), hex_char((byte % 16) as nat)],
    decreases a.len() + b.len(),
{
    if b.len() == 0 {
        assert(a + b =~= a);
        assert(hex_bytes(a) =~= hex_bytes(a) + hex_bytes(b));
    } else {
        a_token_is_written_byte_by_byte(a, b.drop_last(), byte);
        assert((a + b).drop_last() =~= a + b.drop_last());
        assert(hex_bytes(a + b) =~= hex_bytes(a) + hex_bytes(b));
    }
    if a.len() > 0 {
        a_token_is_written_byte_by_byte(a.drop_last(), Seq::empty(), byte);
    }
    let one = seq![byte];
    assert(one.drop_last() =~= Seq::empty());
    assert(hex_bytes(one.drop_last()) == Seq::<char>::empty());
    assert(hex_bytes(one) =~= seq![hex_char((byte / 16) as nat), hex_char((byte % 16) as nat)]);
}

/// The service is started from the packaged program where there is one, else from
/// the interpreter, else not at all; either way it is told the token, the size of
/// a batch and the number of threads, and listens on the port that is asked.
pub proof fn the_service_is_told_its_settings(
    frozen: Option<Seq<char>>,
    python: Option<Seq<char>>,
    config: EmbedProcessConfig,
    token: Seq<char>,
)
    ensures
        rag_launch(frozen, python, config, token) is None <==> frozen is None && python is None,
        rag_launch(frozen, python, config, token) matches Some(l) ==> {
            &&& Some(l.program) == (if frozen is Some {
                frozen
            } else {
                python
            })
            &&& l.env.contains(("RAG_INTERNAL_TOKEN"@, token))
            &&& l.env.contains(("RAG_EMBED_BATCH_SIZE"@, decimal(config.embed_batch_size as nat)))
            &&& l.env.contains(("RAG_TORCH_THREADS"@, decimal(config.torch_threads as nat)))
            &&& frozen is Some ==> l.env.contains(("RAG_PORT"@, decimal(8100))) && !l.in_package_dir
            &&& frozen is None ==> l.args.last() == decimal(8100) && l.args[l.args.len() - 2]
                == "--port"@ && l.in_package_dir
        },
{
    if let Some(l) = rag_launch(frozen, python, config, token) {
        let n = l.env.len() as int;
        assert(l.env[n - 1] == ("RAG_INTERNAL_TOKEN"@, token));
        assert(l.env[n - 2] == ("RAG_TORCH_THREADS"@, decimal(config.torch_threads as nat)));
        assert(l.env[n - 3] == ("RAG_EMBED_BATCH_SIZE"@, decimal(config.embed_batch_size as nat)));
        if frozen is Some {
            assert(l.env[0] == ("RAG_PORT"@, decimal(8100)));
        }
    }
}

} // verus!
