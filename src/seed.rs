use vstd::prelude::*;

use crate::profile::{store_wf, sun_signs, Profile, ProfileStore};

verus! {

/// The usernames of the seed profiles, in store order.
pub open spec fn seed_usernames() -> Seq<Seq<char>> {
    seq![
        "stevejobs"@,
        "jeffbezos"@,
        "billgates"@,
        "markzuckerberg"@,
        "warrenbuffett"@,
        "sundarpichai"@,
        "jackma"@,
        "larrypage"@,
        "satyanadella"@,
        "robertkraft"@,
        "andrewyang"@,
        "timcook"@,
    ]
}

/// The sun signs of the seed profiles, in store order.
pub open spec fn seed_sun_signs() -> Seq<Seq<char>> {
    seq![
        "Pisces"@,
        "Capricorn"@,
        "Scorpio"@,
        "Taurus"@,
        "Virgo"@,
        "Cancer"@,
        "Virgo"@,
        "Aries"@,
        "Leo"@,
        "Gemini"@,
        "Capricorn"@,
        "Scorpio"@,
    ]
}

/// The industries of the seed profiles, in store order.
pub open spec fn seed_industries() -> Seq<Seq<char>> {
    seq![
        "tech"@,
        "tech"@,
        "tech"@,
        "tech"@,
        "finance"@,
        "tech"@,
        "e-commerce"@,
        "tech"@,
        "tech"@,
        "sports"@,
        "unknown"@,
        "tech"@,
    ]
}

/// The picture of the profile at position `i`: the `i`-th of `pictures`, or
/// an empty one where there are fewer.
pub open spec fn picture_for(pictures: Seq<String>, i: int) -> Seq<char> {
    if 0 <= i < pictures.len() {
        pictures[i]@
    } else {
        Seq::empty()
    }
}

fn picture_at(pictures: &Vec<String>, i: usize) -> (r: String)
    ensures
        r@ == picture_for(pictures@, i as int),
{
    if i < pictures.len() {
        pictures[i].clone()
    } else {
        String::new()
    }
}

fn seed_profile(
    username: &str,
    upshot: &str,
    sun_sign: &str,
    industry: &str,
    description: &str,
    picture: String,
) -> (r: Profile)
    ensures
        r.username@ == username@,
        r.upshot@ == upshot@,
        r.sun_sign@ == sun_sign@,
        r.industry@ == industry@,
        r.description@ == description@,
        r.profile_pic_b64 == picture,
{
    Profile {
        username: String::from_str(username),
        upshot: String::from_str(upshot),
        sun_sign: String::from_str(sun_sign),
        industry: String::from_str(industry),
        description: String::from_str(description),
        profile_pic_b64: picture,
    }
}

/// The store that the process starts with: twelve well-known people, each
/// with the picture of its position in `pictures`.
pub fn seed_store(pictures: &Vec<String>) -> (r: ProfileStore)
    ensures
        r.wf(),
        r@.len() == 12,
        forall|i: int|
            0 <= i < 12 ==> {
                &&& (#[trigger] r@[i]).username@ == seed_usernames()[i]
                &&& r@[i].sun_sign@ == seed_sun_signs()[i]
                &&& r@[i].industry@ == seed_industries()[i]
                &&& r@[i].profile_pic_b64@ == picture_for(pictures@, i)
            },
{
    let profiles: Vec<Profile> = vec![
        seed_profile(
            "stevejobs",
            "Co-founder of Apple",
            "Pisces",
            "tech",
            "A college dropout, Steve Jobs, went on to be regarded as the Father of the Digital World. The founder/co-founder of Apple Inc, Pixar Animation Studios and NeXT Inc was a passionate visionary who was responsible for the development of iMac, iPod, iTunes, iPad and the iPhone which ushered in a new era in the computer, music and film industries.",
            picture_at(pictures, 0),
        ),
        seed_profile(
            "jeffbezos",
            "Founder of Amazon.com",
            "Capricorn",
            "tech",
            "The founder and CEO of the multi-national technology company Amazon, Jeff Bezos is the wealthiest man in the world. Jeff, who left his lucrative job at an investment firm to fulfil his entrepreneurial ambition, also owns the newspaper, The Washington Post, and its affiliate publications along with a spaceflight company, Blue Origin.",
            picture_at(pictures, 1),
        ),
        seed_profile(
            "billgates",
            "Co-Founder of Microsoft",
            "Scorpio",
            "tech",
            "Leading American technologist, business leader and philanthropist, Bill Gates is the co-founder of the world’s largest software company, Microsoft. His passion for computers made him one of the richest in the world and through his charity foundation, Bill & Melinda Gates Foundation, he and his ex-wife, Melinda, use this money generously to help people world over live a better life.",
            picture_at(pictures, 2),
        ),
        seed_profile(
            "markzuckerberg",
            "Chief Executive Officer of Facebook",
            "Taurus",
            "tech",
            "The co-founder and CEO of the popular social networking website, Facebook, Mark Zuckerberg is also amongst the richest men in the world. Fascinated by computer since his early life, Zuckerberg co-created TheFacebook while still in college and later even dropped out to devote more time to it. At 23, he became the youngest self-made billionaire in history at that time.",
            picture_at(pictures, 3),
        ),
        seed_profile(
            "warrenbuffett",
            "Business Magnate, Investor, Philanthropist",
            "Virgo",
            "finance",
            "American investor, business tycoon and philanthropist Warren Buffett is considered one of the most successful investors in the world by the media. The chairman and largest shareholder of the firm, Berkshire Hathaway, he is often called as the ‘Oracle’ or ‘Sage’ of Omaha. Notably, he has pledged to give away a sizable portion of his wealth to philanthropic causes.",
            picture_at(pictures, 4),
        ),
        seed_profile(
            "sundarpichai",
            "CEO of Google Inc",
            "Cancer",
            "tech",
            "Sundar Pichai is the CEO of Google and its parent company Alphabet Inc. An alumnus of IIT, Stanford and Wharton, Pichai has come a long way, from innovating Google’s products such as Chrome, Google Drive and Google Apps to leading the software giant and being one of the most sought-after names in the tech industry.",
            picture_at(pictures, 5),
        ),
        seed_profile(
            "jackma",
            "Chinese business magnate",
            "Virgo",
            "e-commerce",
            "Jack Ma’s journey from being a tourist guide to establishing the Chinese e-commerce conglomerate Alibaba is inspirational. Initially rejected by various companies, he is the second-wealthiest person in China as of 2020. After quitting his post of executive chairman of Alibaba in 2019, he focused on philanthropy and environmental causes.",
            picture_at(pictures, 6),
        ),
        seed_profile(
            "larrypage",
            "Co-founder of Google",
            "Aries",
            "tech",
            "Larry Page is an American Internet entrepreneur and computer scientist. As one of the co-founders of the multinational technology company Google, Larry Page effectively changed the way the world functions today as Google is a synonym for a search engine in many parts of the world. Unsurprisingly, he became a billionaire after co-founding Google.",
            picture_at(pictures, 7),
        ),
        seed_profile(
            "satyanadella",
            "Chairman & CEO of Microsoft",
            "Leo",
            "tech",
            "Satya Nadella is an Indian-American business executive, currently serving as the chief executive officer of Microsoft. Since he became CEO, the company has seen a 27% annual growth rate. Born in India to a Telugu-speaking family, Nadella serves as an inspiration to millions of Indians who nurse 'The American Dream'.",
            picture_at(pictures, 8),
        ),
        seed_profile(
            "robertkraft",
            "Chief Executive Officer of the New England Patriots",
            "Gemini",
            "sports",
            "Robert Kraft is an American businessman and the chief executive officer and chairman of the popular diversified holding company, The Kraft Group. A sports enthusiast, Kraft owns the Gillette Stadium, NFL's New England Patriots, and MLS' New England Revolution. Also a well-known philanthropist, Robert Kraft has donated millions of dollars to various causes, such as healthcare, education, and youth sports.",
            picture_at(pictures, 9),
        ),
        seed_profile(
            "andrewyang",
            "Entrepreneur",
            "Capricorn",
            "unknown",
            "This guy hasn't really done all that much and seems to be famous mostly for running for president",
            picture_at(pictures, 10),
        ),
        seed_profile(
            "timcook",
            "Chief Executive Officer of Apple",
            "Scorpio",
            "tech",
            "Since taking over as the CEO of Apple, Inc. in 2011, till 2020, Tim Cook has, through his dedication, doubled its profits. He was the first Fortune 500 CEO to “come out” as gay, in 2014. A devoted philanthropist, Tim intends to donate most of his stocks to charity.",
            picture_at(pictures, 11),
        ),
    ];
    proof {
        reveal_strlit("stevejobs");
        reveal_strlit("jeffbezos");
        reveal_strlit("billgates");
        reveal_strlit("markzuckerberg");
        reveal_strlit("warrenbuffett");
        reveal_strlit("sundarpichai");
        reveal_strlit("jackma");
        reveal_strlit("larrypage");
        reveal_strlit("satyanadella");
        reveal_strlit("robertkraft");
        reveal_strlit("andrewyang");
        reveal_strlit("timcook");
        assert forall|i: int| 0 <= i < 12 implies sun_signs().contains(
            #[trigger] profiles@[i].sun_sign@,
        ) by {
            let k = seq![2int, 0, 10, 4, 8, 6, 8, 3, 7, 5, 0, 10][i];
            assert(sun_signs()[k] == seed_sun_signs()[i]);
        }
        assert(seed_usernames()[0].len() == 9 && seed_usernames()[0][0] == 's' && seed_usernames()[0][1] == 't');
        assert(seed_usernames()[1].len() == 9 && seed_usernames()[1][0] == 'j' && seed_usernames()[1][1] == 'e');
        assert(seed_usernames()[2].len() == 9 && seed_usernames()[2][0] == 'b' && seed_usernames()[2][1] == 'i');
        assert(seed_usernames()[3].len() == 14 && seed_usernames()[3][0] == 'm' && seed_usernames()[3][1] == 'a');
        assert(seed_usernames()[4].len() == 13 && seed_usernames()[4][0] == 'w' && seed_usernames()[4][1] == 'a');
        assert(seed_usernames()[5].len() == 12 && seed_usernames()[5][0] == 's' && seed_usernames()[5][1] == 'u');
        assert(seed_usernames()[6].len() == 6 && seed_usernames()[6][0] == 'j' && seed_usernames()[6][1] == 'a');
        assert(seed_usernames()[7].len() == 9 && seed_usernames()[7][0] == 'l' && seed_usernames()[7][1] == 'a');
        assert(seed_usernames()[8].len() == 12 && seed_usernames()[8][0] == 's' && seed_usernames()[8][1] == 'a');
        assert(seed_usernames()[9].len() == 11 && seed_usernames()[9][0] == 'r' && seed_usernames()[9][1] == 'o');
        assert(seed_usernames()[10].len() == 10 && seed_usernames()[10][0] == 'a' && seed_usernames()[10][1] == 'n');
        assert(seed_usernames()[11].len() == 7 && seed_usernames()[11][0] == 't' && seed_usernames()[11][1] == 'i');
        assert forall|i: int, j: int| 0 <= i < j < 12 implies seed_usernames()[i] != seed_usernames()[j] by {
            if seed_usernames()[i] == seed_usernames()[j] {
                assert(seed_usernames()[i].len() == seed_usernames()[j].len());
                assert(seed_usernames()[i][0] == seed_usernames()[j][0]);
                assert(seed_usernames()[i][1] == seed_usernames()[j][1]);
            }
        }
        assert forall|i: int| 0 <= i < 12 implies (#[trigger] profiles@[i]).username@.len() > 0 by {
            assert(seed_usernames()[i].len() > 0);
        }
        assert(store_wf(profiles@));
    }
    ProfileStore::from_profiles(profiles)
}

} // verus!
