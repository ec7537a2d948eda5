//! The catalog of challenges: what sandbox each one runs in.

use crate::text::{chars_of, same_text};
use vstd::prelude::*;
use vstd::string::StringExecFns;

verus! {

/// One entry of the catalog.
#[derive(Clone, Debug, PartialEq, Eq)]
pub struct ChallengeConfig {
    pub id: String,
    pub name: String,
    pub description: String,
    pub docker_image: String,
    pub exposed_ports: Vec<u16>,
    /// The environment of the sandbox, as pairs of name and value, in the
    /// order in which the sandbox is given them. No name stands twice.
    pub environment_vars: Vec<(String, String)>,
}

/// The mathematical model of a [`ChallengeConfig`].
pub struct ChallengeView {
    pub id: Seq<char>,
    pub name: Seq<char>,
    pub description: Seq<char>,
    pub docker_image: Seq<char>,
    pub exposed_ports: Seq<u16>,
    pub environment_vars: Seq<(Seq<char>, Seq<char>)>,
}

/// The characters of each name and value of a list of pairs.
pub open spec fn pairs_view(pairs: Seq<(String, String)>) -> Seq<(Seq<char>, Seq<char>)> {
    Seq::new(pairs.len(), |i: int| (pairs[i].0@, pairs[i].1@))
}

/// Whether a list of pairs of name and value gives each name one value: no
/// name stands twice.
pub open spec fn names_are_distinct(pairs: Seq<(Seq<char>, Seq<char>)>) -> bool {
    forall|i: int, j: int| 0 <= i < j < pairs.len() ==> (#[trigger] pairs[i]).0 != (#[trigger] pairs[j]).0
}

impl View for ChallengeConfig {
    type V = ChallengeView;

    open spec fn view(&self) -> ChallengeView {
        ChallengeView {
            id: self.id@,
            name: self.name@,
            description: self.description@,
            docker_image: self.docker_image@,
            exposed_ports: self.exposed_ports@,
            environment_vars: pairs_view(self.environment_vars@),
        }
    }
}

/// The SQL injection challenge.
pub open spec fn sql_injection_challenge() -> ChallengeView {
    ChallengeView {
        id: "sql-injection"@,
        name: "SQL Injection Challenge"@,
        description: "Learn to exploit SQL injection vulnerabilities"@,
        docker_image: "leethack-vm:latest"@,
        exposed_ports: seq![2222u16, 8080u16],
        environment_vars: seq![("CHALLENGE_TYPE"@, "sql_injection"@)],
    }
}

/// The challenge that the catalog holds under `id`, if any.
pub open spec fn catalog_entry(id: Seq<char>) -> Option<ChallengeView> {
    if id == "sql-injection"@ {
        Some(sql_injection_challenge())
    } else {
        None
    }
}

/// The view of an optional challenge.
pub open spec fn challenge_of(challenge: Option<ChallengeConfig>) -> Option<ChallengeView> {
    match challenge {
        Some(c) => Some(c@),
        None => None,
    }
}

impl ChallengeConfig {
    /// The SQL injection challenge.
    pub fn sql_injection() -> (challenge: Self)
        ensures
            challenge@ == sql_injection_challenge(),
            names_are_distinct(challenge@.environment_vars),
    {
        let mut env_vars: Vec<(String, String)> = Vec::new();
        env_vars.push((String::from_str("CHALLENGE_TYPE"), String::from_str("sql_injection")));
        let mut ports: Vec<u16> = Vec::new();
        ports.push(2222);
        ports.push(8080);
        let challenge = ChallengeConfig {
            id: String::from_str("sql-injection"),
            name: String::from_str("SQL Injection Challenge"),
            description: String::from_str("Learn to exploit SQL injection vulnerabilities"),
            docker_image: String::from_str("leethack-vm:latest"),
            exposed_ports: ports,
            environment_vars: env_vars,
        };
        proof {
            assert(challenge@.exposed_ports =~= sql_injection_challenge().exposed_ports);
            assert(challenge@.environment_vars =~= sql_injection_challenge().environment_vars);
        }
        challenge
    }

    /// Looks a challenge up by its id.
    pub fn get_challenge(id: &str) -> (challenge: Option<Self>)
        ensures
            challenge_of(challenge) == catalog_entry(id@),
            challenge matches Some(found) ==> names_are_distinct(found@.environment_vars),
    {
        if same_text(&chars_of(id), &chars_of("sql-injection")) {
            Some(Self::sql_injection())
        } else {
            None
        }
    }
}

} // verus!
