//! Weather reports by station: observations, already parsed, become the
//! report that readers get, with conditions and intensity spelled out.

use vstd::prelude::*;

verus! {

/// One descriptor or phenomenon of a weather group.
#[derive(Clone, Copy, Debug, PartialEq, Eq, Structural)]
pub enum WeatherCondition {
    Shallow,
    Partial,
    Patches,
    LowDrifting,
    Blowing,
    Showers,
    Thunderstorm,
    Freezing,
    Rain,
    Drizzle,
    Snow,
    SnowGrains,
    IceCrystals,
    IcePellets,
    Hail,
    SnowPelletsOrSmallHail,
    UnknownPrecipitation,
    Fog,
    VolcanicAsh,
    Mist,
    Haze,
    WidespreadDust,
    Smoke,
    Sand,
    Spray,
    Squall,
    Dust,
    Duststorm,
    Sandstorm,
    FunnelCloud,
}

/// How strong, or how near, the weather of a group is.
#[derive(Clone, Copy, Debug, PartialEq, Eq, Structural)]
pub enum WeatherIntensity {
    Light,
    Moderate,
    Heavy,
    InVicinity,
    Recent,
}

/// The words for a condition.
pub open spec fn spec_condition_name(condition: WeatherCondition) -> Seq<char> {
    match condition {
        WeatherCondition::Shallow => "shallow"@,
        WeatherCondition::Partial => "partial"@,
        WeatherCondition::Patches => "patches"@,
        WeatherCondition::LowDrifting => "low drifting"@,
        WeatherCondition::Blowing => "blowing"@,
        WeatherCondition::Showers => "showers"@,
        WeatherCondition::Thunderstorm => "thunderstorm"@,
        WeatherCondition::Freezing => "freezing"@,
        WeatherCondition::Rain => "rain"@,
        WeatherCondition::Drizzle => "drizzle"@,
        WeatherCondition::Snow => "snow"@,
        WeatherCondition::SnowGrains => "snow grains"@,
        WeatherCondition::IceCrystals => "ice crystals"@,
        WeatherCondition::IcePellets => "ice pellets"@,
        WeatherCondition::Hail => "hail"@,
        WeatherCondition::SnowPelletsOrSmallHail => "snow pellets or small hail"@,
        WeatherCondition::UnknownPrecipitation => "unknown precipitation"@,
        WeatherCondition::Fog => "fog"@,
        WeatherCondition::VolcanicAsh => "volcanic ash"@,
        WeatherCondition::Mist => "mist"@,
        WeatherCondition::Haze => "haze"@,
        WeatherCondition::WidespreadDust => "widespread dust"@,
        WeatherCondition::Smoke => "smoke"@,
        WeatherCondition::Sand => "sand"@,
        WeatherCondition::Spray => "spray"@,
        WeatherCondition::Squall => "squall"@,
        WeatherCondition::Dust => "dust"@,
        WeatherCondition::Duststorm => "duststorm"@,
        WeatherCondition::Sandstorm => "sandstorm"@,
        WeatherCondition::FunnelCloud => "funnel cloud"@,
    }
}

/// The words for an intensity.
pub open spec fn spec_intensity_name(intensity: WeatherIntensity) -> Seq<char> {
    match intensity {
        WeatherIntensity::Light => "light"@,
        WeatherIntensity::Moderate => "moderate"@,
        WeatherIntensity::Heavy => "heavy"@,
        WeatherIntensity::InVicinity => "in vicinity"@,
        WeatherIntensity::Recent => "recent"@,
    }
}

/// The words for a condition, in lower case.
pub fn condition_name(condition: WeatherCondition) -> (name: String)
    ensures
        name@ == spec_condition_name(condition),
{
    let words = match condition {
        WeatherCondition::Shallow => "shallow",
        WeatherCondition::Partial => "partial",
        WeatherCondition::Patches => "patches",
        WeatherCondition::LowDrifting => "low drifting",
        WeatherCondition::Blowing => "blowing",
        WeatherCondition::Showers => "showers",
        WeatherCondition::Thunderstorm => "thunderstorm",
        WeatherCondition::Freezing => "freezing",
        WeatherCondition::Rain => "rain",
        WeatherCondition::Drizzle => "drizzle",
        WeatherCondition::Snow => "snow",
        WeatherCondition::SnowGrains => "snow grains",
        WeatherCondition::IceCrystals => "ice crystals",
        WeatherCondition::IcePellets => "ice pellets",
        WeatherCondition::Hail => "hail",
        WeatherCondition::SnowPelletsOrSmallHail => "snow pellets or small hail",
        WeatherCondition::UnknownPrecipitation => "unknown precipitation",
        WeatherCondition::Fog => "fog",
        WeatherCondition::VolcanicAsh => "volcanic ash",
        WeatherCondition::Mist => "mist",
        WeatherCondition::Haze => "haze",
        WeatherCondition::WidespreadDust => "widespread dust",
        WeatherCondition::Smoke => "smoke",
        WeatherCondition::Sand => "sand",
        WeatherCondition::Spray => "spray",
        WeatherCondition::Squall => "squall",
        WeatherCondition::Dust => "dust",
        WeatherCondition::Duststorm => "duststorm",
        WeatherCondition::Sandstorm => "sandstorm",
        WeatherCondition::FunnelCloud => "funnel cloud",
    };
    words.to_string()
}

/// The words for an intensity, in lower case.
pub fn intensity_name(intensity: WeatherIntensity) -> (name: String)
    ensures
        name@ == spec_intensity_name(intensity),
{
    let words = match intensity {
        WeatherIntensity::Light => "light",
        WeatherIntensity::Moderate => "moderate",
        WeatherIntensity::Heavy => "heavy",
        WeatherIntensity::InVicinity => "in vicinity",
        WeatherIntensity::Recent => "recent",
    };
    words.to_string()
}

/// The line of a fetched report file that holds the report itself: the
/// second line, the first being the time of the observation. `None` where
/// the file has fewer than two lines.
pub fn select_report_line(lines: &Vec<String>) -> (line: Option<String>)
    ensures
        line.is_some() == (lines.len() >= 2),
        line matches Some(text) ==> text@ == lines@[1]@,
{
    if lines.len() < 2 {
        None
    } else {
        Some(lines[1].clone())
    }
}

/// One weather group of an observation.
#[derive(Debug)]
pub struct WeatherGroup {
    pub intensity: WeatherIntensity,
    pub conditions: Vec<WeatherCondition>,
}

/// What was read out of a report: the station, and what the report gives of
/// pressure, in hectopascals, temperature and weather.
#[derive(Debug)]
pub struct Interpretation {
    pub station: String,
    pub pressure: Option<u16>,
    pub temperature: Option<i32>,
    pub weather: Vec<WeatherGroup>,
}

/// A report as received, with what was read out of it.
#[derive(Debug)]
pub struct Observation {
    pub metar: String,
    pub interpretation: Interpretation,
}

/// What a weather group reads as, as mathematical values.
pub struct WeatherView {
    pub conditions: Seq<Seq<char>>,
    pub intensity: Seq<char>,
}

/// A weather group for readers: conditions and intensity in words.
#[derive(Debug)]
pub struct Weather {
    pub conditions: Vec<String>,
    pub intensity: String,
}

impl View for Weather {
    type V = WeatherView;

    open spec fn view(&self) -> WeatherView {
        WeatherView {
            conditions: Seq::new(self.conditions@.len(), |i: int| self.conditions@[i]@),
            intensity: self.intensity@,
        }
    }
}

/// What a station's report holds, as mathematical values.
pub struct StationMetarView {
    pub metar: Seq<char>,
    pub pressure: Option<u16>,
    pub temperature: Option<i32>,
    pub weather: Seq<WeatherView>,
}

/// A station's report for readers.
#[derive(Debug)]
pub struct StationMetar {
    pub metar: String,
    pub pressure: Option<u16>,
    pub temperature: Option<i32>,
    pub weather: Vec<Weather>,
}

impl View for StationMetar {
    type V = StationMetarView;

    open spec fn view(&self) -> StationMetarView {
        StationMetarView {
            metar: self.metar@,
            pressure: self.pressure,
            temperature: self.temperature,
            weather: Seq::new(self.weather@.len(), |i: int| self.weather@[i]@),
        }
    }
}

/// A weather group in words.
pub open spec fn spec_describe_group(group: WeatherGroup) -> WeatherView {
    WeatherView {
        conditions: Seq::new(
            group.conditions@.len(),
            |i: int| spec_condition_name(group.conditions@[i]),
        ),
        intensity: spec_intensity_name(group.intensity),
    }
}

/// The report that an observation yields.
pub open spec fn spec_station_metar(observation: Observation) -> StationMetarView {
    StationMetarView {
        metar: observation.metar@,
        pressure: observation.interpretation.pressure,
        temperature: observation.interpretation.temperature,
        weather: Seq::new(
            observation.interpretation.weather@.len(),
            |i: int| spec_describe_group(observation.interpretation.weather@[i]),
        ),
    }
}

/// Spells out one weather group: each condition and the intensity, in order.
pub fn describe_group(group: &WeatherGroup) -> (described: Weather)
    ensures
        described@ == spec_describe_group(*group),
{
    let mut conditions: Vec<String> = Vec::new();
    let mut i: usize = 0;
    while i < group.conditions.len()
        invariant
            i <= group.conditions.len(),
            conditions.len() == i,
            forall|k: int|
                0 <= k < i ==> (#[trigger] conditions@[k])@ == spec_condition_name(
                    group.conditions@[k],
                ),
        decreases group.conditions.len() - i,
    {
        conditions.push(condition_name(group.conditions[i]));
        i = i + 1;
    }
    let described = Weather { conditions, intensity: intensity_name(group.intensity) };
    assert(described@.conditions =~= spec_describe_group(*group).conditions);
    described
}

/// The report that an observation yields: the text as received, pressure and
/// temperature as read, and every weather group in words.
pub fn station_metar(observation: &Observation) -> (report: StationMetar)
    ensures
        report@ == spec_station_metar(*observation),
{
    let groups = &observation.interpretation.weather;
    let mut weather: Vec<Weather> = Vec::new();
    let mut i: usize = 0;
    while i < groups.len()
        invariant
            i <= groups.len(),
            groups == &observation.interpretation.weather,
            weather.len() == i,
            forall|k: int|
                0 <= k < i ==> (#[trigger] weather@[k])@ == spec_describe_group(groups@[k]),
        decreases groups.len() - i,
    {
        weather.push(describe_group(&groups[i]));
        i = i + 1;
    }
    let report = StationMetar {
        metar: observation.metar.clone(),
        pressure: observation.interpretation.pressure,
        temperature: observation.interpretation.temperature,
        weather,
    };
    assert(report@.weather =~= spec_station_metar(*observation).weather);
    report
}

/// What a station entry holds, as mathematical values.
pub struct StationEntryView {
    pub station: Seq<char>,
    pub report: StationMetarView,
}

/// A station and its report.
#[derive(Debug)]
pub struct StationEntry {
    pub station: String,
    pub report: StationMetar,
}

impl View for StationEntry {
    type V = StationEntryView;

    open spec fn view(&self) -> StationEntryView {
        StationEntryView { station: self.station@, report: self.report@ }
    }
}

/// The mathematical values of a run of station entries, in order.
pub open spec fn view_entries(entries: Seq<StationEntry>) -> Seq<StationEntryView> {
    Seq::new(entries.len(), |i: int| entries[i]@)
}

/// Whether no two entries name the same station.
pub open spec fn stations_distinct(entries: Seq<StationEntryView>) -> bool {
    forall|i: int, j: int|
        0 <= i < j < entries.len() ==> (#[trigger] entries[i]).station != (
        #[trigger] entries[j]).station
}

/// Index of the entry for a station among distinct entries, or the number of
/// entries where there is none.
pub open spec fn spec_station_index(entries: Seq<StationEntryView>, station: Seq<char>) -> int
    decreases entries.len(),
{
    if entries.len() == 0 {
        0
    } else if spec_station_index(entries.drop_last(), station) < entries.len() - 1 {
        spec_station_index(entries.drop_last(), station)
    } else if entries.last().station == station {
        entries.len() - 1
    } else {
        entries.len() as int
    }
}

/// The entries with one more report: it replaces the report of its station
/// where the station has an entry, and is added at the end otherwise.
pub open spec fn spec_upsert(entries: Seq<StationEntryView>, entry: StationEntryView) -> Seq<
    StationEntryView,
> {
    let at = spec_station_index(entries, entry.station);
    if at < entries.len() {
        entries.update(at, entry)
    } else {
        entries.push(entry)
    }
}

/// The entries that a run of fetches yields: a failed fetch yields nothing,
/// and of two reports from one station the later one stays.
pub open spec fn spec_metar_response(fetched: Seq<Option<Observation>>) -> Seq<StationEntryView>
    decreases fetched.len(),
{
    if fetched.len() == 0 {
        Seq::empty()
    } else {
        match fetched.last() {
            None => spec_metar_response(fetched.drop_last()),
            Some(observation) => spec_upsert(
                spec_metar_response(fetched.drop_last()),
                StationEntryView {
                    station: observation.interpretation.station@,
                    report: spec_station_metar(observation),
                },
            ),
        }
    }
}

/// What the index is: the first entry that names the station, or the number
/// of entries where none does.
pub proof fn lemma_station_index(entries: Seq<StationEntryView>, station: Seq<char>)
    ensures
        0 <= spec_station_index(entries, station) <= entries.len(),
        spec_station_index(entries, station) < entries.len() ==> entries[spec_station_index(
            entries,
            station,
        )].station == station,
        forall|k: int|
            0 <= k < spec_station_index(entries, station) ==> (#[trigger] entries[k]).station
                != station,
    decreases entries.len(),
{
    if entries.len() > 0 {
        let front = entries.drop_last();
        lemma_station_index(front, station);
        assert forall|k: int| 0 <= k < spec_station_index(entries, station) implies (
        #[trigger] entries[k]).station != station by {
            if k < front.len() {
                assert(entries[k] == front[k]);
            }
        }
    }
}

/// Adding a report keeps the stations distinct.
pub proof fn lemma_upsert_keeps_distinct(entries: Seq<StationEntryView>, entry: StationEntryView)
    requires
        stations_distinct(entries),
    ensures
        stations_distinct(spec_upsert(entries, entry)),
{
    lemma_station_index(entries, entry.station);
}

/// No station has two entries in a response.
pub proof fn law_response_stations_distinct(fetched: Seq<Option<Observation>>)
    ensures
        stations_distinct(spec_metar_response(fetched)),
    decreases fetched.len(),
{
    if fetched.len() > 0 {
        law_response_stations_distinct(fetched.drop_last());
        match fetched.last() {
            None => {},
            Some(observation) => {
                lemma_upsert_keeps_distinct(
                    spec_metar_response(fetched.drop_last()),
                    StationEntryView {
                        station: observation.interpretation.station@,
                        report: spec_station_metar(observation),
                    },
                );
            },
        }
    }
}

/// Builds the response from what was fetched, in the order of the fetches. A
/// fetch that failed stands as `None` and yields nothing. Each observation
/// yields the report of its station; where a station was seen before, the
/// new report takes the place of the old one.
pub fn build_metar_response(fetched: &Vec<Option<Observation>>) -> (response: Vec<StationEntry>)
    ensures
        view_entries(response@) == spec_metar_response(fetched@),
        stations_distinct(view_entries(response@)),
{
    let mut response: Vec<StationEntry> = Vec::new();
    let mut i: usize = 0;
    while i < fetched.len()
        invariant
            i <= fetched.len(),
            view_entries(response@) == spec_metar_response(fetched@.take(i as int)),
        decreases fetched.len() - i,
    {
        assert(fetched@.take(i + 1).drop_last() =~= fetched@.take(i as int));
        match &fetched[i] {
            None => {},
            Some(observation) => {
                let ghost before = view_entries(response@);
                let entry = StationEntry {
                    station: observation.interpretation.station.clone(),
                    report: station_metar(observation),
                };
                let ghost added = entry@;
                let mut at: usize = 0;
                while at < response.len() && response[at].station != entry.station
                    invariant
                        at <= response.len(),
                        before == view_entries(response@),
                        added == entry@,
                        forall|k: int|
                            0 <= k < at ==> (#[trigger] before[k]).station != added.station,
                    decreases response.len() - at,
                {
                    at = at + 1;
                }
                proof {
                    lemma_station_index(before, added.station);
                    if at < response.len() {
                        assert(before[at as int].station == added.station);
                    }
                }
                if at < response.len() {
                    response.set(at, entry);
                } else {
                    response.push(entry);
                }
            },
        }
        i = i + 1;
    }
    assert(fetched@.take(fetched.len() as int) =~= fetched@);
    proof {
        law_response_stations_distinct(fetched@);
    }
    response
}

} // verus!
