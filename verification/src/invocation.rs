//! Composing a child-process invocation from command-line tokens and
//! overlaying temporary credentials onto its environment.
use vstd::prelude::*;

use crate::EnvironmentVariables;
use crate::error::ChaperoneError;
use crate::table::Pair;
use crate::table::keys_unique;
use crate::table::pairs_model;
use crate::table::table_set;

verus! {

/// The full description of a child process to spawn: executable name,
/// ordered arguments, and extra environment entries.
pub struct Invocation {
    pub program: String,
    pub arguments: Vec<String>,
    pub environment: Vec<Pair>,
}

/// The three credential values issued for a session.
pub struct Credentials {
    pub access_key_id: String,
    pub secret_access_key: String,
    pub session_token: String,
}

/// An invocation built from a token list: the first token is the
/// executable, the rest are its arguments, and the environment overlay
/// starts empty.
pub open spec fn built_from(tokens: Seq<Seq<char>>, inv: Invocation) -> bool {
    &&& tokens.len() > 0
    &&& inv.program@ == tokens[0]
    &&& inv.arguments.deep_view() == tokens.drop_first()
    &&& inv.environment@.len() == 0
}

/// An environment mapping after the three credential entries are
/// overlaid on it.
pub open spec fn injected(
    env: Map<Seq<char>, Seq<char>>,
    access_key: Seq<char>,
    secret_key: Seq<char>,
    session_token: Seq<char>,
) -> Map<Seq<char>, Seq<char>> {
    env.insert(EnvironmentVariables::AccessKey.spec_name(), access_key).insert(
        EnvironmentVariables::SecretKey.spec_name(),
        secret_key,
    ).insert(EnvironmentVariables::SessionToken.spec_name(), session_token)
}

impl Invocation {
    /// The environment overlay never binds a name twice.
    pub open spec fn wf(&self) -> bool {
        keys_unique(self.environment@)
    }

    /// The mapping the environment overlay stands for.
    pub open spec fn env_model(&self) -> Map<Seq<char>, Seq<char>> {
        pairs_model(self.environment@)
    }

    /// Splits a token list into an invocation: the first token names the
    /// executable, the remaining tokens are its arguments, kept in order
    /// and unmodified. An empty list is refused.
    pub fn build(tokens: &Vec<String>) -> (r: Result<Invocation, ChaperoneError>)
        ensures
            match r {
                Ok(inv) => built_from(tokens.deep_view(), inv) && inv.wf(),
                Err(e) => e == ChaperoneError::EmptyCommand && tokens@.len() == 0,
            },
    {
        if tokens.len() == 0 {
            return Err(ChaperoneError::EmptyCommand);
        }
        let program = tokens[0].clone();
        let mut arguments: Vec<String> = Vec::new();
        let mut i: usize = 1;
        while i < tokens.len()
            invariant
                1 <= i <= tokens@.len(),
                arguments.deep_view() == tokens.deep_view().subrange(1, i as int),
            decreases tokens@.len() - i,
        {
            let ghost prev = arguments.deep_view();
            arguments.push(tokens[i].clone());
            proof {
                assert(arguments.deep_view() =~= prev.push(tokens@[i as int]@));
                assert(arguments.deep_view() =~= tokens.deep_view().subrange(1, i + 1));
            }
            i = i + 1;
        }
        proof {
            assert(tokens.deep_view().subrange(1, tokens@.len() as int) =~= tokens.deep_view()
                .drop_first());
        }
        Ok(Invocation { program, arguments, environment: Vec::new() })
    }

    /// Overlays the three credential entries onto the environment,
    /// superseding any earlier binding of the same names. Nothing else
    /// about the invocation changes, and this never fails.
    pub fn inject(&mut self, credentials: &Credentials)
        requires
            old(self).wf(),
        ensures
            final(self).wf(),
            final(self).program == old(self).program,
            final(self).arguments == old(self).arguments,
            final(self).env_model() == injected(
                old(self).env_model(),
                credentials.access_key_id@,
                credentials.secret_access_key@,
                credentials.session_token@,
            ),
    {
        table_set(
            &mut self.environment,
            String::from_str(EnvironmentVariables::AccessKey.as_str()),
            credentials.access_key_id.clone(),
        );
        table_set(
            &mut self.environment,
            String::from_str(EnvironmentVariables::SecretKey.as_str()),
            credentials.secret_access_key.clone(),
        );
        table_set(
            &mut self.environment,
            String::from_str(EnvironmentVariables::SessionToken.as_str()),
            credentials.session_token.clone(),
        );
    }
}

/// Law: credential injection is absorbing on the names it touches.
/// Injecting one set of values and then another leaves the environment
/// exactly as if only the second set had been injected: only the second
/// values are present, and no other entry is disturbed.
pub proof fn lemma_inject_absorbing(
    env: Map<Seq<char>, Seq<char>>,
    first_access: Seq<char>,
    first_secret: Seq<char>,
    first_token: Seq<char>,
    second_access: Seq<char>,
    second_secret: Seq<char>,
    second_token: Seq<char>,
)
    ensures
        injected(
            injected(env, first_access, first_secret, first_token),
            second_access,
            second_secret,
            second_token,
        ) == injected(env, second_access, second_secret, second_token),
{
    assert(injected(
        injected(env, first_access, first_secret, first_token),
        second_access,
        second_secret,
        second_token,
    ) =~= injected(env, second_access, second_secret, second_token));
}

/// What `build_settings` assembles around an invocation.
pub struct Settings {
    pub command_name: String,
    pub command: Box<Invocation>,
}

/// Builds the settings for a run: the invocation for the supplied command
/// tokens, together with the executable's name for diagnostics. The
/// resolved configuration rides along unused here; the credential values
/// derived from it are overlaid later by `Invocation::inject`.
pub fn build_settings(arguments: &crate::Arguments, _c: crate::config::Config) -> (r: Result<
    Box<Settings>,
    ChaperoneError,
>)
    ensures
        match r {
            Ok(s) => built_from(arguments.command_parts.deep_view(), *s.command) && s.command.wf()
                && s.command_name@ == arguments.command_parts.deep_view()[0],
            Err(e) => e == ChaperoneError::EmptyCommand && arguments.command_parts@.len() == 0,
        },
{
    let command = match Invocation::build(&arguments.command_parts) {
        Ok(inv) => inv,
        Err(e) => {
            return Err(e);
        },
    };
    let command_name = command.program.clone();
    Ok(Box::new(Settings { command_name, command: Box::new(command) }))
}

} // verus!
