use citum_core::reference::date::EdtfString;
use citum_core::reference::types::{
    CollectionComponent, MonographComponentType, Parent, SerialComponent, SerialComponentType, Title,
};

#[test]
fn test_serial_component_with_parent_id() {
    let parent_id = "journal-1".to_string();
    let component = SerialComponent {
        id: Some("article-1".to_string()),
        kind: SerialComponentType::Article,
        title: Some(Title::Single("My Article".to_string())),
        author: None,
        translator: None,
        issued: EdtfString("2023".to_string()),
        parent: Parent::Id(parent_id.clone()),
        url: None,
        accessed: None,
        language: None,
        field_languages: Default::default(),
        note: None,
        doi: None,
        pages: None,
        volume: None,
        issue: None,
        genre: None,
        medium: None,
        keywords: None,
    };

    match component.parent {
        Parent::Id(id) => assert_eq!(id, parent_id),
        Parent::Embedded(_) => panic!("Expected Parent::Id"),
    }
}

#[test]
fn test_collection_component_with_parent_id() {
    let parent_id = "book-1".to_string();
    let component = CollectionComponent {
        id: Some("chapter-1".to_string()),
        kind: MonographComponentType::Chapter,
        title: Some(Title::Single("My Chapter".to_string())),
        author: None,
        translator: None,
        issued: EdtfString("2023".to_string()),
        parent: Parent::Id(parent_id.clone()),
        pages: None,
        url: None,
        accessed: None,
        language: None,
        field_languages: Default::default(),
        note: None,
        doi: None,
        genre: None,
        medium: None,
        keywords: None,
    };

    match component.parent {
        Parent::Id(id) => assert_eq!(id, parent_id),
        Parent::Embedded(_) => panic!("Expected Parent::Id"),
    }
}
