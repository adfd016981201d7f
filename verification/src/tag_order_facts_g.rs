use vstd::prelude::*;

use crate::catalog::Classifier;
use crate::lexord::lex_lt;
use crate::lexord::lex_lt_from;
use crate::rank::classifier_of_rank;

verus! {

proof fn lex_adj_840()
    ensures
        lex_lt(Classifier::Topic__Terminals__Telnet.tag(), Classifier::Topic__Terminals__TerminalEmulatorsXTerminals.tag()),
{
    reveal_strlit("Topic :: Terminals :: Telnet");
    reveal_strlit("Topic :: Terminals :: Terminal Emulators/X Terminals");
    reveal_with_fuel(lex_lt_from, 26);
}

proof fn lex_adj_841()
    ensures
        lex_lt(Classifier::Topic__Terminals__TerminalEmulatorsXTerminals.tag(), Classifier::Topic__TextEditors.tag()),
{
    reveal_strlit("Topic :: Terminals :: Terminal Emulators/X Terminals");
    reveal_strlit("Topic :: Text Editors");
    reveal_with_fuel(lex_lt_from, 13);
}

proof fn lex_adj_842()
    ensures
        lex_lt(Classifier::Topic__TextEditors.tag(), Classifier::Topic__TextEditors__Documentation.tag()),
{
    reveal_strlit("Topic :: Text Editors");
    reveal_strlit("Topic :: Text Editors :: Documentation");
    reveal_with_fuel(lex_lt_from, 23);
}

proof fn lex_adj_843()
    ensures
        lex_lt(Classifier::Topic__TextEditors__Documentation.tag(), Classifier::Topic__TextEditors__Emacs.tag()),
{
    reveal_strlit("Topic :: Text Editors :: Documentation");
    reveal_strlit("Topic :: Text Editors :: Emacs");
    reveal_with_fuel(lex_lt_from, 27);
}

proof fn lex_adj_844()
    ensures
        lex_lt(Classifier::Topic__TextEditors__Emacs.tag(), Classifier::Topic__TextEditors__IntegratedDevelopmentEnvironmentsIDE.tag()),
{
    reveal_strlit("Topic :: Text Editors :: Emacs");
    reveal_strlit("Topic :: Text Editors :: Integrated Development Environments (IDE)");
    reveal_with_fuel(lex_lt_from, 27);
}

proof fn lex_adj_845()
    ensures
        lex_lt(Classifier::Topic__TextEditors__IntegratedDevelopmentEnvironmentsIDE.tag(), Classifier::Topic__TextEditors__TextProcessing.tag()),
{
    reveal_strlit("Topic :: Text Editors :: Integrated Development Environments (IDE)");
    reveal_strlit("Topic :: Text Editors :: Text Processing");
    reveal_with_fuel(lex_lt_from, 27);
}

proof fn lex_adj_846()
    ensures
        lex_lt(Classifier::Topic__TextEditors__TextProcessing.tag(), Classifier::Topic__TextEditors__WordProcessors.tag()),
{
    reveal_strlit("Topic :: Text Editors :: Text Processing");
    reveal_strlit("Topic :: Text Editors :: Word Processors");
    reveal_with_fuel(lex_lt_from, 27);
}

proof fn lex_adj_847()
    ensures
        lex_lt(Classifier::Topic__TextEditors__WordProcessors.tag(), Classifier::Topic__TextProcessing.tag()),
{
    reveal_strlit("Topic :: Text Editors :: Word Processors");
    reveal_strlit("Topic :: Text Processing");
    reveal_with_fuel(lex_lt_from, 16);
}

proof fn lex_adj_848()
    ensures
        lex_lt(Classifier::Topic__TextProcessing.tag(), Classifier::Topic__TextProcessing__Filters.tag()),
{
    reveal_strlit("Topic :: Text Processing");
    reveal_strlit("Topic :: Text Processing :: Filters");
    reveal_with_fuel(lex_lt_from, 26);
}

proof fn lex_adj_849()
    ensures
        lex_lt(Classifier::Topic__TextProcessing__Filters.tag(), Classifier::Topic__TextProcessing__Fonts.tag()),
{
    reveal_strlit("Topic :: Text Processing :: Filters");
    reveal_strlit("Topic :: Text Processing :: Fonts");
    reveal_with_fuel(lex_lt_from, 31);
}

proof fn lex_adj_850()
    ensures
        lex_lt(Classifier::Topic__TextProcessing__Fonts.tag(), Classifier::Topic__TextProcessing__General.tag()),
{
    reveal_strlit("Topic :: Text Processing :: Fonts");
    reveal_strlit("Topic :: Text Processing :: General");
    reveal_with_fuel(lex_lt_from, 30);
}

proof fn lex_adj_851()
    ensures
        lex_lt(Classifier::Topic__TextProcessing__General.tag(), Classifier::Topic__TextProcessing__Indexing.tag()),
{
    reveal_strlit("Topic :: Text Processing :: General");
    reveal_strlit("Topic :: Text Processing :: Indexing");
    reveal_with_fuel(lex_lt_from, 30);
}

proof fn lex_adj_852()
    ensures
        lex_lt(Classifier::Topic__TextProcessing__Indexing.tag(), Classifier::Topic__TextProcessing__Linguistic.tag()),
{
    reveal_strlit("Topic :: Text Processing :: Indexing");
    reveal_strlit("Topic :: Text Processing :: Linguistic");
    reveal_with_fuel(lex_lt_from, 30);
}

proof fn lex_adj_853()
    ensures
        lex_lt(Classifier::Topic__TextProcessing__Linguistic.tag(), Classifier::Topic__TextProcessing__Markup.tag()),
{
    reveal_strlit("Topic :: Text Processing :: Linguistic");
    reveal_strlit("Topic :: Text Processing :: Markup");
    reveal_with_fuel(lex_lt_from, 30);
}

proof fn lex_adj_854()
    ensures
        lex_lt(Classifier::Topic__TextProcessing__Markup.tag(), Classifier::Topic__TextProcessing__Markup__HTML.tag()),
{
    reveal_strlit("Topic :: Text Processing :: Markup");
    reveal_strlit("Topic :: Text Processing :: Markup :: HTML");
    reveal_with_fuel(lex_lt_from, 36);
}

proof fn lex_adj_855()
    ensures
        lex_lt(Classifier::Topic__TextProcessing__Markup__HTML.tag(), Classifier::Topic__TextProcessing__Markup__LaTeX.tag()),
{
    reveal_strlit("Topic :: Text Processing :: Markup :: HTML");
    reveal_strlit("Topic :: Text Processing :: Markup :: LaTeX");
    reveal_with_fuel(lex_lt_from, 40);
}

proof fn lex_adj_856()
    ensures
        lex_lt(Classifier::Topic__TextProcessing__Markup__LaTeX.tag(), Classifier::Topic__TextProcessing__Markup__Markdown.tag()),
{
    reveal_strlit("Topic :: Text Processing :: Markup :: LaTeX");
    reveal_strlit("Topic :: Text Processing :: Markup :: Markdown");
    reveal_with_fuel(lex_lt_from, 40);
}

proof fn lex_adj_857()
    ensures
        lex_lt(Classifier::Topic__TextProcessing__Markup__Markdown.tag(), Classifier::Topic__TextProcessing__Markup__SGML.tag()),
{
    reveal_strlit("Topic :: Text Processing :: Markup :: Markdown");
    reveal_strlit("Topic :: Text Processing :: Markup :: SGML");
    reveal_with_fuel(lex_lt_from, 40);
}

proof fn lex_adj_858()
    ensures
        lex_lt(Classifier::Topic__TextProcessing__Markup__SGML.tag(), Classifier::Topic__TextProcessing__Markup__VRML.tag()),
{
    reveal_strlit("Topic :: Text Processing :: Markup :: SGML");
    reveal_strlit("Topic :: Text Processing :: Markup :: VRML");
    reveal_with_fuel(lex_lt_from, 40);
}

proof fn lex_adj_859()
    ensures
        lex_lt(Classifier::Topic__TextProcessing__Markup__VRML.tag(), Classifier::Topic__TextProcessing__Markup__XML.tag()),
{
    reveal_strlit("Topic :: Text Processing :: Markup :: VRML");
    reveal_strlit("Topic :: Text Processing :: Markup :: XML");
    reveal_with_fuel(lex_lt_from, 40);
}

proof fn lex_adj_860()
    ensures
        lex_lt(Classifier::Topic__TextProcessing__Markup__XML.tag(), Classifier::Topic__TextProcessing__Markup__reStructuredText.tag()),
{
    reveal_strlit("Topic :: Text Processing :: Markup :: XML");
    reveal_strlit("Topic :: Text Processing :: Markup :: reStructuredText");
    reveal_with_fuel(lex_lt_from, 40);
}

proof fn lex_adj_861()
    ensures
        lex_lt(Classifier::Topic__TextProcessing__Markup__reStructuredText.tag(), Classifier::Topic__Utilities.tag()),
{
    reveal_strlit("Topic :: Text Processing :: Markup :: reStructuredText");
    reveal_strlit("Topic :: Utilities");
    reveal_with_fuel(lex_lt_from, 11);
}

proof fn lex_adj_862()
    ensures
        lex_lt(Classifier::Topic__Utilities.tag(), Classifier::Typing__StubsOnly.tag()),
{
    reveal_strlit("Topic :: Utilities");
    reveal_strlit("Typing :: Stubs Only");
    reveal_with_fuel(lex_lt_from, 3);
}

proof fn lex_adj_863()
    ensures
        lex_lt(Classifier::Typing__StubsOnly.tag(), Classifier::Typing__Typed.tag()),
{
    reveal_strlit("Typing :: Stubs Only");
    reveal_strlit("Typing :: Typed");
    reveal_with_fuel(lex_lt_from, 12);
}

/// Adjacent tags within this stretch of the lexicographic order.
pub(crate) proof fn lemma_adjacent_lex_g(i: int)
    requires
        840 <= i < 864,
    ensures
        lex_lt(classifier_of_rank(i).tag(), classifier_of_rank(i + 1).tag()),
{
    if i == 840 {
        lex_adj_840();
    }
    if i == 841 {
        lex_adj_841();
    }
    if i == 842 {
        lex_adj_842();
    }
    if i == 843 {
        lex_adj_843();
    }
    if i == 844 {
        lex_adj_844();
    }
    if i == 845 {
        lex_adj_845();
    }
    if i == 846 {
        lex_adj_846();
    }
    if i == 847 {
        lex_adj_847();
    }
    if i == 848 {
        lex_adj_848();
    }
    if i == 849 {
        lex_adj_849();
    }
    if i == 850 {
        lex_adj_850();
    }
    if i == 851 {
        lex_adj_851();
    }
    if i == 852 {
        lex_adj_852();
    }
    if i == 853 {
        lex_adj_853();
    }
    if i == 854 {
        lex_adj_854();
    }
    if i == 855 {
        lex_adj_855();
    }
    if i == 856 {
        lex_adj_856();
    }
    if i == 857 {
        lex_adj_857();
    }
    if i == 858 {
        lex_adj_858();
    }
    if i == 859 {
        lex_adj_859();
    }
    if i == 860 {
        lex_adj_860();
    }
    if i == 861 {
        lex_adj_861();
    }
    if i == 862 {
        lex_adj_862();
    }
    if i == 863 {
        lex_adj_863();
    }
}

} // verus!
