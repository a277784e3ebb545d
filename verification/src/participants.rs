//! Names of the participants that the simulator creates on the switch for
//! its clients, and of the hub whose accounts it creates.
use rand::rngs::StdRng;
use vstd::prelude::*;
use vstd::string::*;

verus! {

/// The name under which the hub's accounts are created.
pub const HUB_NAME: &'static str = "Hub";

/// The prefix of every participant name that the simulator creates.
pub const PARTICIPANT_NAME_PREFIX: &'static str = "voodoo";

/// The number of random characters that follow the prefix.
pub const PARTICIPANT_NAME_SUFFIX_LEN: usize = 24;

#[verifier::external_type_specification]
#[verifier::external_body]
pub struct ExStdRng(StdRng);

/// An ASCII letter or digit.
pub open spec fn is_ascii_alphanumeric(c: char) -> bool {
    ('a' <= c && c <= 'z') || ('A' <= c && c <= 'Z') || ('0' <= c && c <= '9')
}

/// A name that the simulator may give a participant: the prefix followed by
/// `PARTICIPANT_NAME_SUFFIX_LEN` ASCII letters and digits.
pub open spec fn is_participant_name(name: Seq<char>) -> bool {
    &&& name.len() == 6 + PARTICIPANT_NAME_SUFFIX_LEN
    &&& name.subrange(0, 6) == PARTICIPANT_NAME_PREFIX@
    &&& forall|i: int| 6 <= i < name.len() ==> is_ascii_alphanumeric(#[trigger] name[i])
}

/// A generator seeded from the operating system's random source, by
/// `rand::SeedableRng::from_rng` applied to `rand::rngs::OsRng`; `None` where
/// the operating system provides no randomness. Nothing is stated of the
/// generator's state, nor of when the operating system fails.
#[verifier::external_body]
fn seeded_rng() -> Option<StdRng> {
    match <StdRng as rand::SeedableRng>::from_rng(rand::rngs::OsRng) {
        Ok(rng) => Some(rng),
        Err(_) => None,
    }
}

/// One character drawn by `rand::Rng::sample` from `rand`'s `Alphanumeric`
/// distribution, which its documentation describes as uniform over the
/// ASCII letters and digits; the contract states only that it is one of them.
#[verifier::external_body]
fn sample_alphanumeric(rng: &mut StdRng) -> (c: char)
    ensures
        is_ascii_alphanumeric(c),
{
    char::from(rand::Rng::sample(rng, rand::distributions::Alphanumeric))
}

/// `String::push`: appends the character at the end of the string.
#[verifier::external_body]
fn push_char(s: &mut String, c: char)
    ensures
        final(s)@ == old(s)@.push(c),
{
    s.push(c)
}

/// `len` ASCII letters and digits drawn from the generator. It always
/// succeeds: the only failure in drawing names is in seeding a generator.
pub fn random_alphanumeric_with(rng: &mut StdRng, len: usize) -> (s: String)
    ensures
        s@.len() == len,
        forall|i: int| 0 <= i < len ==> is_ascii_alphanumeric(#[trigger] s@[i]),
{
    let mut s = String::new();
    let mut n: usize = 0;
    while n < len
        invariant
            n <= len,
            s@.len() == n,
            forall|i: int| 0 <= i < n ==> is_ascii_alphanumeric(#[trigger] s@[i]),
        decreases len - n,
    {
        let c = sample_alphanumeric(rng);
        push_char(&mut s, c);
        n = n + 1;
    }
    s
}

/// `len` random ASCII letters and digits; `None` where no random generator
/// could be seeded. The generator is seeded once, before anything is drawn,
/// and the drawing itself cannot fail.
pub fn random_alphanumeric(len: usize) -> (res: Option<String>)
    ensures
        res matches Some(s) ==> s@.len() == len
            && forall|i: int| 0 <= i < len ==> is_ascii_alphanumeric(#[trigger] s@[i]),
{
    match seeded_rng() {
        Some(mut rng) => Some(random_alphanumeric_with(&mut rng, len)),
        None => None,
    }
}

/// The participant name with the given suffix.
pub fn participant_name(suffix: &str) -> (name: String)
    ensures
        name@ == PARTICIPANT_NAME_PREFIX@ + suffix@,
{
    let mut name = PARTICIPANT_NAME_PREFIX.to_owned();
    name.append(suffix);
    name
}

/// A participant name drawn from the generator: the prefix and a random
/// suffix. It always succeeds.
pub fn new_participant_name_with(rng: &mut StdRng) -> (name: String)
    ensures
        is_participant_name(name@),
{
    let suffix = random_alphanumeric_with(rng, PARTICIPANT_NAME_SUFFIX_LEN);
    let name = participant_name(suffix.as_str());
    proof {
        reveal_strlit("voodoo");
        assert(name@.subrange(0, 6) =~= PARTICIPANT_NAME_PREFIX@);
        assert forall|i: int| 6 <= i < name@.len() implies is_ascii_alphanumeric(#[trigger] name@[i]) by {
            assert(name@[i] == suffix@[i - 6]);
        }
    }
    name
}

/// A fresh participant name: the prefix and a random suffix; `None` where no
/// random generator could be seeded.
pub fn new_participant_name() -> (res: Option<String>)
    ensures
        res matches Some(name) ==> is_participant_name(name@),
{
    match seeded_rng() {
        Some(mut rng) => Some(new_participant_name_with(&mut rng)),
        None => None,
    }
}

/// One step in creating the participants that a client asks for; `account`
/// is the position of the participant's account in the request.
#[derive(Debug)]
pub enum ParticipantStep {
    /// Create a participant with this name in the account's currency.
    Create { account: usize, name: String },
    /// Set the participant's initial position and net debit cap from the account.
    SetPositionAndLimits { account: usize },
    /// Issue the created participant to the client.
    IssueToClient { account: usize },
}

/// The steps create, for each of `count` accounts in turn, a participant
/// whose name has the form of a participant name (the prefix and
/// `PARTICIPANT_NAME_SUFFIX_LEN` ASCII letters and digits), then set its
/// position and limits, then issue it to the client.
pub open spec fn plan_creates_participants(plan: Seq<ParticipantStep>, count: usize) -> bool {
    &&& plan.len() == 3 * count
    &&& forall|i: int| 0 <= i < count ==> {
        &&& (#[trigger] plan[3 * i]) matches ParticipantStep::Create { account, name }
            && account == i && is_participant_name(name@)
        &&& plan[3 * i + 1] == ParticipantStep::SetPositionAndLimits { account: i as usize }
        &&& plan[3 * i + 2] == ParticipantStep::IssueToClient { account: i as usize }
    }
}

/// The steps that create the participants for `count` accounts, with names
/// drawn from the generator: for each account in turn, a participant with a
/// newly drawn name is created, its position and limits are set, and it is
/// issued to the client. It always succeeds, whatever `count` is.
pub fn participant_setup_plan_with(rng: &mut StdRng, count: usize) -> (plan: Vec<ParticipantStep>)
    ensures
        plan_creates_participants(plan@, count),
{
    let mut plan: Vec<ParticipantStep> = Vec::new();
    let mut i: usize = 0;
    while i < count
        invariant
            i <= count,
            plan.len() == 3 * i,
            forall|j: int| 0 <= j < i ==> {
                &&& (#[trigger] plan[3 * j]) matches ParticipantStep::Create { account, name }
                    && account == j && is_participant_name(name@)
                &&& plan[3 * j + 1] == ParticipantStep::SetPositionAndLimits { account: j as usize }
                &&& plan[3 * j + 2] == ParticipantStep::IssueToClient { account: j as usize }
            },
        decreases count - i,
    {
        let name = new_participant_name_with(rng);
        let ghost before = plan@;
        plan.push(ParticipantStep::Create { account: i, name });
        plan.push(ParticipantStep::SetPositionAndLimits { account: i });
        plan.push(ParticipantStep::IssueToClient { account: i });
        proof {
            assert forall|j: int| 0 <= j < i + 1 implies {
                &&& (#[trigger] plan[3 * j]) matches ParticipantStep::Create { account, name }
                    && account == j && is_participant_name(name@)
                &&& plan[3 * j + 1] == ParticipantStep::SetPositionAndLimits { account: j as usize }
                &&& plan[3 * j + 2] == ParticipantStep::IssueToClient { account: j as usize }
            } by {
                if j < i {
                    assert(plan@[3 * j] == before[3 * j]);
                    assert(plan@[3 * j + 1] == before[3 * j + 1]);
                    assert(plan@[3 * j + 2] == before[3 * j + 2]);
                }
            }
        }
        i = i + 1;
    }
    plan
}

/// The steps that create the participants for `count` accounts: for each
/// account in turn, a participant with a newly drawn name is created, its
/// position and limits are set, and it is issued to the client. With no
/// accounts nothing is drawn and the plan is empty. Otherwise one generator
/// is seeded for all the names; `None` only where that seeding fails, since
/// drawing the names and building the plan cannot fail.
pub fn participant_setup_plan(count: usize) -> (res: Option<Vec<ParticipantStep>>)
    ensures
        res matches Some(plan) ==> plan_creates_participants(plan@, count),
        count == 0 ==> (res matches Some(plan) && plan@.len() == 0),
{
    if count == 0 {
        return Some(Vec::new());
    }
    match seeded_rng() {
        Some(mut rng) => Some(participant_setup_plan_with(&mut rng, count)),
        None => None,
    }
}

/// Law: a plan for `count` accounts creates exactly one participant per
/// account, each with a participant name; each account's position and limits
/// are set right after its participant is created, and the participant is
/// issued to the client right after that, before the next account is begun.
pub proof fn law_setup_plan_serves_every_account(plan: Seq<ParticipantStep>, count: usize)
    requires
        plan_creates_participants(plan, count),
    ensures
        plan.len() == 3 * count,
        forall|k: int| 0 <= k < plan.len() && (#[trigger] plan[k]) is Create ==>
            plan[k]->Create_account < count && k == 3 * plan[k]->Create_account,
        forall|a: int| 0 <= a < count ==> {
            &&& exists|name: String| plan[3 * a] == (ParticipantStep::Create { account: a as usize, name })
                && is_participant_name(name@)
            &&& #[trigger] plan[3 * a + 1] == ParticipantStep::SetPositionAndLimits { account: a as usize }
            &&& plan[3 * a + 2] == ParticipantStep::IssueToClient { account: a as usize }
        },
{
    assert forall|k: int| 0 <= k < plan.len() && (#[trigger] plan[k]) is Create implies
        plan[k]->Create_account < count && k == 3 * plan[k]->Create_account by {
        let q = k / 3;
        let r = k % 3;
        assert(k == 3 * q + r && 0 <= r < 3 && 0 <= q < count) by (nonlinear_arith)
            requires
                0 <= k < 3 * count,
                q == k / 3,
                r == k % 3,
        ;
        assert(plan[3 * q] matches ParticipantStep::Create { .. });
        if r == 1 {
            assert(plan[3 * q + 1] == ParticipantStep::SetPositionAndLimits { account: q as usize });
        } else if r == 2 {
            assert(plan[3 * q + 2] == ParticipantStep::IssueToClient { account: q as usize });
        }
    }
    assert forall|a: int| 0 <= a < count implies {
        &&& exists|name: String| plan[3 * a] == (ParticipantStep::Create { account: a as usize, name })
            && is_participant_name(name@)
        &&& #[trigger] plan[3 * a + 1] == ParticipantStep::SetPositionAndLimits { account: a as usize }
        &&& plan[3 * a + 2] == ParticipantStep::IssueToClient { account: a as usize }
    } by {
        assert(plan[3 * a] matches ParticipantStep::Create { .. });
        let name = plan[3 * a]->Create_name;
        assert(plan[3 * a] == (ParticipantStep::Create { account: a as usize, name }));
    }
}

} // verus!
