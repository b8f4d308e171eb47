use lib::misc_generated::{AdventureJournalStore, AdventureMapPoiStore, BannedAddonsStore, BroadcastTextStore, CfgCategoriesStore, CfgRegionsStore, ChatChannelsStore, CinematicCameraStore, CinematicSequencesStore, ConditionalChrModelStore, ConditionalContentTuningStore, ExpectedStatModStore, ExpectedStatStore, GarrAbilityStore, GarrBuildingPlotInstStore, GarrBuildingStore, GarrClassSpecStore, GarrFollowerStore, GarrFollowerXAbilityStore, GarrMissionStore, GarrPlotBuildingStore, GarrPlotInstanceStore, GarrPlotStore, GarrSiteLevelPlotInstStore, GarrSiteLevelStore, GarrTalentTreeStore, GemPropertiesStore, GossipNpcOptionStore, GuildColorBackgroundStore, GuildColorBorderStore, GuildColorEmblemStore, GuildPerkSpellsStore, HolidaysStore, KeychainStore, KeystoneAffixStore, LanguageWordsStore, LanguagesStore, LfgDungeonsStore, MailTemplateStore, MovieStore, MythicPlusSeasonStore, NamesProfanityStore, NamesReservedLocaleStore, NamesReservedStore, OverrideSpellDataStore, PrestigeLevelInfoStore, PvpDifficultyStore, PvpItemStore, ScenarioStore, SceneScriptGlobalTextStore, SceneScriptStore, SceneScriptTextStore, ServerMessagesStore, SoundKitStore, SpecSetMemberStore, SpecializationSpellsStore, SummonPropertiesStore, TactKeyStore, TotemCategoryStore};

#[test]
fn load_misc_generated_db2_subbatch_when_fixtures_exist() {
    assert!(AdventureJournalStore::load(Vec::new()).is_empty());
    assert!(AdventureMapPoiStore::load(Vec::new()).is_empty());
    assert!(BannedAddonsStore::load(Vec::new()).is_empty());
    assert!(BroadcastTextStore::load(Vec::new()).is_empty());
    assert!(CfgCategoriesStore::load(Vec::new()).is_empty());
    assert!(CfgRegionsStore::load(Vec::new()).is_empty());
    assert!(ChatChannelsStore::load(Vec::new()).is_empty());
    assert!(CinematicCameraStore::load(Vec::new()).is_empty());
    assert!(CinematicSequencesStore::load(Vec::new()).is_empty());
    assert!(ConditionalChrModelStore::load(Vec::new()).is_empty());
    assert!(ConditionalContentTuningStore::load(Vec::new()).is_empty());
    assert!(ExpectedStatStore::load(Vec::new()).is_empty());
    assert!(ExpectedStatModStore::load(Vec::new()).is_empty());
    assert!(GarrAbilityStore::load(Vec::new()).is_empty());
    assert!(GarrBuildingStore::load(Vec::new()).is_empty());
    assert!(GarrBuildingPlotInstStore::load(Vec::new()).is_empty());
    assert!(GarrClassSpecStore::load(Vec::new()).is_empty());
    assert!(GarrFollowerStore::load(Vec::new()).is_empty());
    assert!(GarrFollowerXAbilityStore::load(Vec::new()).is_empty());
    assert!(GarrMissionStore::load(Vec::new()).is_empty());
    assert!(GarrPlotStore::load(Vec::new()).is_empty());
    assert!(GarrPlotBuildingStore::load(Vec::new()).is_empty());
    assert!(GarrPlotInstanceStore::load(Vec::new()).is_empty());
    assert!(GarrSiteLevelStore::load(Vec::new()).is_empty());
    assert!(GarrSiteLevelPlotInstStore::load(Vec::new()).is_empty());
    assert!(GarrTalentTreeStore::load(Vec::new()).is_empty());
    assert!(GemPropertiesStore::load(Vec::new()).is_empty());
    assert!(GossipNpcOptionStore::load(Vec::new()).is_empty());
    assert!(GuildColorBackgroundStore::load(Vec::new()).is_empty());
    assert!(GuildColorBorderStore::load(Vec::new()).is_empty());
    assert!(GuildColorEmblemStore::load(Vec::new()).is_empty());
    assert!(GuildPerkSpellsStore::load(Vec::new()).is_empty());
    assert!(HolidaysStore::load(Vec::new()).is_empty());
    assert!(KeychainStore::load(Vec::new()).is_empty());
    assert!(KeystoneAffixStore::load(Vec::new()).is_empty());
    assert!(LfgDungeonsStore::load(Vec::new()).is_empty());
    assert!(LanguageWordsStore::load(Vec::new()).is_empty());
    assert!(LanguagesStore::load(Vec::new()).is_empty());
    assert!(MailTemplateStore::load(Vec::new()).is_empty());
    assert!(MovieStore::load(Vec::new()).is_empty());
    assert!(MythicPlusSeasonStore::load(Vec::new()).is_empty());
    assert!(NamesProfanityStore::load(Vec::new()).is_empty());
    assert!(NamesReservedStore::load(Vec::new()).is_empty());
    assert!(NamesReservedLocaleStore::load(Vec::new()).is_empty());
    assert!(OverrideSpellDataStore::load(Vec::new()).is_empty());
    assert!(PvpDifficultyStore::load(Vec::new()).is_empty());
    assert!(PvpItemStore::load(Vec::new()).is_empty());
    assert!(PrestigeLevelInfoStore::load(Vec::new()).is_empty());
    assert!(ScenarioStore::load(Vec::new()).is_empty());
    assert!(SceneScriptStore::load(Vec::new()).is_empty());
    assert!(SceneScriptGlobalTextStore::load(Vec::new()).is_empty());
    assert!(SceneScriptTextStore::load(Vec::new()).is_empty());
    assert!(ServerMessagesStore::load(Vec::new()).is_empty());
    assert!(SoundKitStore::load(Vec::new()).is_empty());
    assert!(SpecSetMemberStore::load(Vec::new()).is_empty());
    assert!(SpecializationSpellsStore::load(Vec::new()).is_empty());
    assert!(SummonPropertiesStore::load(Vec::new()).is_empty());
    assert!(TactKeyStore::load(Vec::new()).is_empty());
    assert!(TotemCategoryStore::load(Vec::new()).is_empty());
}
