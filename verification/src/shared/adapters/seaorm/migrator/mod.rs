pub mod m20260424_000002_event_source_cards;
