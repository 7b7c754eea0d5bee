use vstd::prelude::*;
use vstd::string::StrSliceExecFns;

verus! {

/// One person of the directory.
#[derive(Clone, Debug)]
pub struct Profile {
    pub username: String,
    pub upshot: String,
    pub sun_sign: String,
    pub industry: String,
    pub description: String,
    pub profile_pic_b64: String,
}

impl Profile {
    /// A field-by-field copy of the profile.
    pub fn duplicate(&self) -> (r: Profile)
        ensures
            r == *self,
    {
        Profile {
            username: self.username.clone(),
            upshot: self.upshot.clone(),
            sun_sign: self.sun_sign.clone(),
            industry: self.industry.clone(),
            description: self.description.clone(),
            profile_pic_b64: self.profile_pic_b64.clone(),
        }
    }
}

/// A copy of every profile of `profiles`, in the same order.
pub fn copy_profiles(profiles: &Vec<Profile>) -> (r: Vec<Profile>)
    ensures
        r@ == profiles@,
{
    let mut r: Vec<Profile> = Vec::new();
    let mut i: usize = 0;
    while i < profiles.len()
        invariant
            i <= profiles.len(),
            r@ == profiles@.take(i as int),
        decreases profiles.len() - i,
    {
        r.push(profiles[i].duplicate());
        i = i + 1;
        assert(r@ =~= profiles@.take(i as int));
    }
    assert(profiles@.take(profiles.len() as int) =~= profiles@);
    r
}

/// The twelve sun signs, in their canonical order.
pub open spec fn sun_signs() -> Seq<Seq<char>> {
    seq![
        "Capricorn"@,
        "Aquarius"@,
        "Pisces"@,
        "Aries"@,
        "Taurus"@,
        "Gemini"@,
        "Cancer"@,
        "Leo"@,
        "Virgo"@,
        "Libra"@,
        "Scorpio"@,
        "Sagittarius"@,
    ]
}

/// The views of a sequence of strings.
pub open spec fn string_views(v: Seq<String>) -> Seq<Seq<char>> {
    v.map_values(|s: String| s@)
}

/// The twelve sun signs, in their canonical order.
pub fn all_sun_signs() -> (r: Vec<String>)
    ensures
        string_views(r@) == sun_signs(),
{
    let r: Vec<String> = vec![
        String::from_str("Capricorn"),
        String::from_str("Aquarius"),
        String::from_str("Pisces"),
        String::from_str("Aries"),
        String::from_str("Taurus"),
        String::from_str("Gemini"),
        String::from_str("Cancer"),
        String::from_str("Leo"),
        String::from_str("Virgo"),
        String::from_str("Libra"),
        String::from_str("Scorpio"),
        String::from_str("Sagittarius"),
    ];
    assert(string_views(r@) =~= sun_signs());
    r
}

/// Whether `value` names one of the twelve sun signs.
pub fn is_sun_sign(value: &String) -> (r: bool)
    ensures
        r == sun_signs().contains(value@),
{
    let signs = all_sun_signs();
    let mut i: usize = 0;
    while i < signs.len()
        invariant
            i <= signs.len(),
            string_views(signs@) == sun_signs(),
            forall|j: int| 0 <= j < i ==> sun_signs()[j] != value@,
        decreases signs.len() - i,
    {
        if signs[i] == *value {
            assert(sun_signs()[i as int] == value@);
            return true;
        }
        i = i + 1;
    }
    false
}

/// Some profile of `s` has the username `username`.
pub open spec fn username_taken(s: Seq<Profile>, username: Seq<char>) -> bool {
    exists|i: int| 0 <= i < s.len() && #[trigger] s[i].username@ == username
}

/// A profile that may enter the store: a non-empty username and a known sun sign.
pub open spec fn valid_profile(p: Profile) -> bool {
    p.username@.len() > 0 && sun_signs().contains(p.sun_sign@)
}

/// The store's invariant: valid profiles under pairwise distinct usernames.
pub open spec fn store_wf(s: Seq<Profile>) -> bool {
    &&& forall|i: int| 0 <= i < s.len() ==> valid_profile(#[trigger] s[i])
    &&& forall|i: int, j: int|
        0 <= i < j < s.len() ==> #[trigger] s[i].username@ != #[trigger] s[j].username@
}

/// Why a profile was not added to the store.
#[derive(Clone, Copy, Debug, PartialEq, Eq, Structural)]
pub enum CreateProfileError {
    EmptyUsername,
    UsernameTaken,
    UnknownSunSign,
}

/// The ordered sequence of profiles. Profiles are only ever appended, and the
/// order of insertion is the order in which lists show them.
pub struct ProfileStore {
    profiles: Vec<Profile>,
}

impl View for ProfileStore {
    type V = Seq<Profile>;

    closed spec fn view(&self) -> Seq<Profile> {
        self.profiles@
    }
}

impl ProfileStore {
    pub open spec fn wf(&self) -> bool {
        store_wf(self@)
    }

    /// A store with no profile.
    pub fn new() -> (r: ProfileStore)
        ensures
            r.wf(),
            r@ == Seq::<Profile>::empty(),
    {
        let r = ProfileStore { profiles: Vec::new() };
        assert(r@ =~= Seq::<Profile>::empty());
        r
    }

    /// A store holding the given profiles, in their order.
    pub(crate) fn from_profiles(profiles: Vec<Profile>) -> (r: ProfileStore)
        requires
            store_wf(profiles@),
        ensures
            r@ == profiles@,
    {
        ProfileStore { profiles }
    }

    /// The number of profiles.
    pub fn len(&self) -> (r: usize)
        ensures
            r == self@.len(),
    {
        self.profiles.len()
    }

    /// The profiles, in store order.
    pub fn profiles(&self) -> (r: &Vec<Profile>)
        ensures
            r@ == self@,
    {
        &self.profiles
    }

    /// A detached copy of the profiles, in store order.
    pub fn snapshot(&self) -> (r: Vec<Profile>)
        ensures
            r@ == self@,
    {
        copy_profiles(&self.profiles)
    }

    /// The position of the profile with the given username, if there is one.
    pub fn position_of(&self, username: &String) -> (r: Option<usize>)
        ensures
            r.is_none() == !username_taken(self@, username@),
            r matches Some(i) ==> i < self@.len() && self@[i as int].username@ == username@,
    {
        let mut i: usize = 0;
        while i < self.profiles.len()
            invariant
                i <= self.profiles.len(),
                forall|j: int| 0 <= j < i ==> self@[j].username@ != username@,
            decreases self.profiles.len() - i,
        {
            if self.profiles[i].username == *username {
                return Some(i);
            }
            i = i + 1;
        }
        None
    }

    /// Whether no profile has the given username yet.
    pub fn check_username_availability(&self, username: &String) -> (r: bool)
        ensures
            r == !username_taken(self@, username@),
    {
        self.position_of(username).is_none()
    }

    /// A copy of the profile with the given username; none when no profile has it.
    pub fn find_profile(&self, username: &String) -> (r: Option<Profile>)
        requires
            self.wf(),
        ensures
            r.is_none() == !username_taken(self@, username@),
            r matches Some(p) ==> self@.contains(p) && p.username@ == username@,
    {
        match self.position_of(username) {
            Some(i) => Some(self.profiles[i].duplicate()),
            None => None,
        }
    }

    /// Appends a profile with a non-empty username that is not taken yet and
    /// a known sun sign; leaves the store as it was otherwise.
    pub fn create_profile(&mut self, p: Profile) -> (r: Result<(), CreateProfileError>)
        requires
            old(self).wf(),
        ensures
            final(self).wf(),
            r is Ok <==> valid_profile(p) && !username_taken(old(self)@, p.username@),
            r is Ok ==> final(self)@ == old(self)@.push(p),
            r is Err ==> final(self)@ == old(self)@,
            r == Err::<(), _>(CreateProfileError::EmptyUsername) <==> p.username@.len() == 0,
            r == Err::<(), _>(CreateProfileError::UsernameTaken) <==> p.username@.len() > 0
                && username_taken(old(self)@, p.username@),
            r == Err::<(), _>(CreateProfileError::UnknownSunSign) <==> p.username@.len() > 0
                && !username_taken(old(self)@, p.username@) && !sun_signs().contains(
                p.sun_sign@,
            ),
    {
        if p.username.as_str().unicode_len() == 0 {
            return Err(CreateProfileError::EmptyUsername);
        }
        if !self.check_username_availability(&p.username) {
            return Err(CreateProfileError::UsernameTaken);
        }
        if !is_sun_sign(&p.sun_sign) {
            return Err(CreateProfileError::UnknownSunSign);
        }
        self.profiles.push(p);
        Ok(())
    }
}

} // verus!
