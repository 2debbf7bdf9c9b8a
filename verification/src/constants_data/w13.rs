//! The raw limb data of permutation width 13: the `(8 + 65) * 13`
//! additive round constants and the `13 * 13` row-major mixing matrix,
//! each entry a canonical field value below the modulus, little-endian in
//! four 64-bit limbs.

use vstd::prelude::*;

verus! {

use vstd::slice::slice_to_vec;

const C_T13: [[u64; 4]; 949] = [
    [2946226504836579341, 17266765802170466922, 11683730724418709128, 1401683200642732321],
    [12204292773100606266, 6694472978730084262, 107935625385032394, 3024725539494139958],
    [7070821344719996200, 17184088172072909762, 1629028102418491940, 2053277566527080284],
    [17483469670941741798, 11764697873241107389, 11484696434900188826, 2424425249506267013],
    [1888308766769100040, 15214578765228257191, 11383282666311254240, 816277393826413851],
    [10346428831813174199, 15828950085091660657, 2367526108030252255, 149351906209437120],
    [5847033839554444329, 3510146799203623263, 10206138079709808850, 131324777054539464],
    [11340572816718888851, 10840177512018281875, 11069793377573978677, 2221121103584020784],
    [16584596943328947739, 4448335938636138558, 17212916347490528689, 3376318951195555050],
    [12407881622117779417, 18339216029745319817, 14302244379866120483, 1314394535801964127],
    [12786381243153688828, 16849452251883848147, 14945149175918309636, 3155957045183652106],
    [8112662980361177557, 2779078275128366513, 16760399028067751446, 2281399537334714887],
    [431569872192260151, 13947564649551820201, 17670545070669946716, 3009233375201988536],
    [10084404722836031070, 8953580540078619908, 12678801065174415617, 1704386702928361121],
    [11894826960941351528, 1392884174186120386, 4294405198180441757, 871665225280683700],
    [7350144181434867273, 14612988840676789711, 11464938676866124058, 1825301186959942412],
    [10048804679398905344, 1701748318570085863, 11592467410794108655, 2707133380784239832],
    [6253713814723964908, 3404982471858467767, 16607703701381428403, 1701720724230325785],
    [1028561593358980469, 359036472139384700, 1296336883669300110, 3484943069981446268],
    [16284722646184852415, 13594586364219829136, 16325939356360911822, 2992399883846309775],
    [6796901171742746899, 15024054836245980314, 4695680129902215204, 194559586274594892],
    [761204015766033209, 1065668948258648927, 4754019444002471326, 605873141923871507],
    [1888885367383771581, 16700662768644761818, 13230195644673831038, 747590905981779113],
    [12526722733638174294, 6066995581734507347, 3834239309806601930, 2370097675783837986],
    [14862842164269984109, 15106418650653265129, 16743432306852370972, 168001192951010052],
    [13613213227809950704, 13555511871419758244, 15870216571412166780, 1282792050794826839],
    [7911002428224077041, 6931349483548448195, 13475694588203618230, 3429685740095865973],
    [2625433404952906234, 13867505051289220432, 3156160881647632976, 1530521621697506680],
    [11053233373538131670, 8156428275914279397, 3373352555427071720, 349892817524443885],
    [7151259269389722077, 3513920363041844691, 16028651691329125666, 1052323259889170933],
    [8663104968235378519, 10456929556229454574, 11449856359595716729, 1039643521566169999],
    [7528168623566582410, 12400355379028771325, 11659565452646605402, 159875730842870839],
    [3855748083056224900, 13664440551026092041, 12216435069483054956, 2178964997710509589],
    [2226714954510087232, 13609711552192415503, 15982072897310990025, 680678257349406400],
    [1494702258032894249, 2162346722845317536, 15647716386288471820, 1230495932078126183],
    [4496176278551275165, 5399896298495811064, 10944675633521525143, 1523595181636922406],
    [14855383457758448793, 5753106084598694034, 13045589305221261829, 454039588744927851],
    [15670125965233131084, 8985948171320524861, 2357480735231874646, 1358393644069047990],
    [17510129458540256195, 14704200946030036670, 16979447239490887813, 616186581637771891],
    [4559632508010915599, 9957803550523869564, 4673863238217346501, 1518396839779450555],
    [1622685069286475165, 5361158868661563125, 16915918577474874862, 1254747269804836136],
    [11790963495003962026, 909630416772021807, 9570468811030965551, 3057951596656283503],
    [925841957606634072, 17041296536063774613, 16042683885610359887, 2740372395359403660],
    [5069137563894949432, 710407508721116036, 3815512241552998568, 2617447939286769208],
    [5390334067677505106, 14501523292543419522, 12110540167619290853, 447349512126914199],
    [17594627018391057787, 3909240068383086044, 14505918427377510548, 2265234419359557521],
    [13956207746370440189, 8446468679740983557, 11036342898413848627, 1677531786993217264],
    [9430596551262119475, 6536108717531260783, 16386493357649910384, 283679195615467892],
    [6671717027366876342, 1965642880756034920, 3659634573038757275, 3286732217979177755],
    [9317895081207035243, 8488785282908067665, 4944618440061969917, 128801354686319898],
    [14327823682286648756, 2455404650063603393, 5196736942228920811, 2612086317193084984],
    [232366752323626472, 10705522762032283440, 13750100637081397872, 455104011008458448],
    [7229527008488300025, 12550701829884714241, 8538761283598962874, 1644390427219206795],
    [3394608219977225371, 3015792479785655887, 6622864284366204715, 427434446931442161],
    [5903903472160189811, 16447671566280687589, 4624661322966683327, 2588383396602244178],
    [2929964549748191464, 13164498009580095172, 7698824265433465784, 2966664471816990737],
    [2977118994648687594, 12149459422028234177, 12987892406958259907, 1386337764240065869],
    [834512899700651102, 14918078001121322513, 5115161391608082096, 2294230864299010190],
    [2472789034392999798, 11208368528092774918, 14417543339572709543, 160732219178944546],
    [9049689074684735215, 5553953588972573384, 6406126007550230300, 531362340683031233],
    [16425025843469370651, 1033224391147435344, 2868137364656539650, 107589186863944237],
    [10874626907856246914, 7929914449342168802, 778728329739178558, 1820186459701334440],
    [3209959940629443860, 8640380696936548276, 6741908246411506796, 500151495284116722],
    [276042366194143471, 3951450244473395506, 8780340323148520044, 921298491500585397],
    [16490278598358258441, 6214926832067374532, 1373847687474425279, 1926859779308949094],
    [3769507280322916142, 10302954914487450128, 3908912717299367186, 2599751881914302463],
    [17546848198148154488, 6922782994525420090, 10086883849395923140, 1815436446370935799],
    [16787630084505598046, 17959393434854560168, 8251560541027239572, 3234636839732122277],
    [16463518822831596684, 12263532213688861644, 11421490830219195635, 1558420995428326435],
    [11751849832393406053, 9743609787526318477, 10420868739256156534, 801011329646664573],
    [2028107532564754934, 16592322353538396349, 5577992155796650334, 1434997884942267753],
    [14402451636371511069, 12205122236444527995, 12672063230756103061, 2305377628379491231],
    [2700889252816626759, 4642688717355681190, 137463137849883741, 1277529095219814460],
    [9151535870572900588, 16642430785823267649, 10234771859026609434, 1441291187238734715],
    [11669462893492956786, 302171352751362052, 17119910235589207967, 1168666619518449282],
    [16271354972585130685, 8620162644547464143, 7010336678104099519, 2355817905971035516],
    [12917283397028108845, 11969319915241721139, 1236077425036237856, 2155031685303845479],
    [16767195007666462031, 7712450391110089287, 5171781934197301751, 2385843496910570663],
    [13980856470594340142, 2389802300768850549, 1268935455355842519, 248538198994714974],
    [17303021414429806782, 9029257388075423766, 13760380273812940583, 91072472827331164],
    [9972602696329957905, 14200965595905532566, 8838983412773410569, 572780555554441589],
    [4486469805365416207, 14453821098988560599, 2256969722416558747, 889362644825759118],
    [18100124509689709843, 10527786883811955038, 3832738299528094137, 2057312277282886904],
    [3247840710841338766, 15565027136201974476, 17332146529851735384, 1629635197285020571],
    [7900127312504256635, 17880711033168179469, 4235084603719247974, 3400275628257120216],
    [17860167979087966323, 8652896347503899279, 17499522438630103671, 1022797577877049573],
    [6892877882435610004, 14667262615561004222, 2101299964578261515, 3066959121999192419],
    [16677605819306328279, 14767277516446654515, 16739796779485738398, 579543791861893003],
    [17273712624897276754, 15248760467465160998, 13476365717299643645, 1002229264835708446],
    [4753952034199123545, 2073538938754232294, 1587137506546933753, 2498075351815438228],
    [11579604701806783334, 9874570022874066020, 17325427351856755917, 2256122505159727179],
    [13067683976871322353, 5723491623794072842, 9325369888467015261, 1339491465820843576],
    [15613394514849376702, 10112217536433367029, 13036590188473987369, 286689369738158807],
    [4851173569026232120, 2736728132893952310, 8444369295801640093, 577067707080387501],
    [9242911652264643082, 10081287043528381906, 1732992366592166446, 2114637087454410938],
    [1271761850783389607, 7801189928685592601, 551169469891876172, 2273383722366009587],
    [6510081394607225842, 14104997380411955871, 1663827513283455715, 260265874954909708],
    [12801819893100479196, 6061474720180943725, 3560720275361188850, 526778305375841147],
    [17029797305591356592, 9771359322477735905, 6257100243281652237, 2261879111012118438],
    [17275431533479935523, 7194401597238856215, 13003443849902142551, 2133570340893641628],
    [8731812747043179206, 11233481591007404096, 9884939567646574231, 532711765629448225],
    [2862016162991067704, 10380234765713610349, 7491576637596144651, 504723359985444578],
    [2653323980099092353, 6527387393994800274, 16342684204241864310, 703283207541439756],
    [6535309660479465025, 2917255722952594720, 5520190392180004891, 2246698307525126967],
    [10783446284854064165, 9231055797411133183, 15618590269604661051, 887977377830115899],
    [16126025179047830501, 11412845018801643570, 18412438654002352623, 3397453572596986052],
    [2385484129511900354, 542303949627683562, 4986669964129786855, 3095848862057758996],
    [9274401932133378878, 11848876139679368051, 15487987337573102951, 1786475864510181935],
    [17918887812334716302, 15556980234345423441, 15287079393562120384, 1465472947243703771],
    [1563522191179520071, 16523016349936322274, 6314395335327205692, 3367188256248876329],
    [13438842766574965968, 2305090353258666821, 14156544625085700867, 2934195855293332598],
    [10846037056673759397, 8355093695349240396, 12822207588689098575, 1714477583170661678],
    [16401723250878121904, 8951416183205543063, 14244912505404162014, 2662875100080229015],
    [12780452838830005740, 3250074631702120801, 17865861621267451186, 2831458223342059675],
    [9468332655426487415, 4806242973787840769, 5059639463380367312, 3223039532324879768],
    [13838711868556220808, 13522934526002367000, 10412207817149203918, 2877851020440308548],
    [17212519127951122769, 1626839299509717467, 4903123844706613700, 3076548319281031674],
    [11288386477621633653, 10574991579265183695, 9474702363485474455, 2959105273337449476],
    [10942015378328419066, 3500732494244937955, 1354666881975437816, 1081935488641733086],
    [17137060911110560225, 309094630092427601, 4434615608632422212, 2552137401590781729],
    [5502111035592226063, 4250207830089963484, 118061142540362168, 3193275021663908328],
    [11416053427923265404, 17959938911927261348, 15829036776607900536, 918607389661870033],
    [15037035590906629092, 12744041159572559920, 12007018255627507744, 2096612522044048833],
    [651970042048773843, 2898957510051994969, 10685138858714852963, 1474571657755508607],
    [12204759756727233880, 6733582184896809945, 17684081084646378780, 2654139685584884306],
    [3961545870248654494, 4867845151118949860, 16769522999123018819, 894219515397532344],
    [7394537706675721745, 1622436354752123034, 891093833193836263, 2082266503748337180],
    [484872824113390088, 17737105472613636607, 4895116544137997913, 3256684062249055939],
    [15255714065499738873, 18079370924564275796, 5018709614983057450, 1264019743481261850],
    [16504349012166589277, 14633499952312999391, 12969645162134116991, 812274167135520741],
    [5343829410877949619, 17399724896760632638, 14254425048168055614, 3235768964988567891],
    [11981618973235895032, 17645262373711119269, 5191307907867696981, 600312762970063590],
    [16642445120688253245, 8575140257543449460, 6409450178527876149, 1569362040447791391],
    [6112217720989830872, 3500555513717197214, 7042393073180101897, 3029302846435613191],
    [17707703319291120345, 4033218193975340610, 13252279624162236877, 1048235891266006242],
    [14509289577197216228, 5741766061717079435, 13350470380500797074, 1599471557393313386],
    [16144370379366386941, 11975828993598380480, 2001559934053556, 2580941137865914188],
    [10442539540175582624, 12550106833538765298, 3588807516583649442, 1542583791281882304],
    [3798855622032777381, 1267521780232833112, 14612802095682803251, 1960179705745836893],
    [15467970755487210945, 9024986879805272853, 14283276712323140485, 2898079922870712468],
    [5412857978914759238, 12299766599988379791, 4893952034611161222, 3013198783081825561],
    [18169100455109432816, 13198030729589168442, 14122891966856038885, 2111111504212612379],
    [8899807769423973683, 16115206697988765900, 7278722629238672989, 1632790819424833539],
    [7696883640876740163, 1510234015258663930, 15895657094605170223, 2926865601734426078],
    [17829922088025957, 5286798716704784330, 806844342143197126, 739001944182549694],
    [497637983335638740, 3830292978259126880, 1423208052293495229, 2648349829706598566],
    [13380546137453548667, 1435927462634711631, 16657768175118891233, 2845340724685551020],
    [13936475398704690781, 13305875298533768641, 649706515727373004, 734145459181406568],
    [5567440671326517577, 12143081373864879867, 15655934829231011688, 2269489591715273321],
    [1584461024927136869, 9971023658316084968, 14666661924345047591, 606943075824397162],
    [15431634280843719479, 18374087336108312703, 15852652603058877594, 2861544690620647264],
    [12746781130539560304, 12358893498727001576, 10973494975321372087, 52284682743673199],
    [760301708888056725, 17702363893708709164, 8749746084176187987, 1971348464295551683],
    [6108010347588688184, 175099272361310495, 4562633634400568540, 3322202415468982880],
    [12659544989994085910, 12788813246269848862, 8583686549634834319, 3424528049353693749],
    [15384443568875229505, 12467407731070457101, 4855357628094345180, 27774650456476766],
    [5423976176162136887, 143778029907442114, 7603285553566159598, 3295714753286016567],
    [8884734483496675399, 9494866913161941620, 16843319200467353860, 2081746047685614097],
    [9898137213290751276, 6443225265236147937, 945387326828507615, 605034472136984395],
    [14260831821573445484, 17783176505245390802, 17866509513451403422, 3141345800067986208],
    [3850097550750252072, 15745447422155883417, 3491726991101773360, 643428680672814503],
    [919355169716159519, 11465136604152491411, 7624461051848172506, 2945136231800268581],
    [10175206951044719839, 17559518969911952173, 14724540420880169371, 1562584714222584554],
    [4215593906491779425, 17042824776717263805, 15375697360705207576, 1859720332940155547],
    [12211357976442713432, 8302273131058397419, 13149123401030963495, 351527839618809848],
    [3342997633984283806, 6580897890187821933, 14712081616905224935, 1561353102612451729],
    [8890869579837822447, 9299617058987272696, 18295795121557682900, 112172140408337495],
    [11147915032139281237, 13718179940227826992, 1835392489550418614, 1664930233089617541],
    [7337095124781502497, 1453227719106119970, 6194281034073123639, 3361772284759078899],
    [10970110874432660659, 7843684230347773806, 9279404161522682375, 1459890180896078673],
    [3390720268845415452, 2389116476538175172, 10352749991845370461, 553146654008667978],
    [4978002555881328004, 3007091287218191521, 16535988920595059442, 384236280935958538],
    [10292947768018875557, 7219107704971935435, 10903355289553861165, 794221623157161493],
    [16263838205282286214, 300407438171680738, 12653663188726497543, 1840624929277085025],
    [14336204043347308292, 12420584022306283454, 8234400613008720996, 2684007604402629254],
    [15837830338576151593, 17110992356016639132, 2258229560407482128, 1077018823211213786],
    [15001368068810046264, 15647093233691252641, 1607340205796211411, 3281195958805201504],
    [2684157678100506774, 3438272692696258773, 9183345074120700943, 1859507494268833912],
    [13378081839523022539, 16283212527465696087, 15313391292609327362, 404753353382187593],
    [13099899814697695235, 1929516474011191478, 4312453135035374285, 3097394229458165949],
    [3367119442396095003, 8937244909497359802, 4800268247604975480, 498035498577056791],
    [17031204291035488408, 15497141025063346739, 4937824245715715567, 2200985938078761314],
    [970853391910517481, 1694816472703980336, 14515006325814442586, 3416217322059238179],
    [15382387552618960579, 10146100358007872643, 7537670274373684481, 733667759882888005],
    [15871631397418709265, 14006169465256654696, 17875970919873564662, 1192093763989285774],
    [10888740099141559809, 14109990862445184887, 15247908895534074208, 878079793365198933],
    [11253260427680481372, 11504529075793252012, 3471283586848867843, 277778167634977749],
    [2579220351969214772, 9248541216893628411, 1326091091110719308, 76364690733139411],
    [12675876946414813824, 11659804563637595038, 8381585260203380393, 463891753012189646],
    [9669234368098322137, 7340877417084825328, 8601910711592019397, 3301196384619656493],
    [9169375481012376630, 6544971661915988547, 7922233383437512986, 1951630379996115975],
    [4675156114069943698, 14535618336068062556, 7529784847174947619, 191730773127357835],
    [1644362221228436822, 13857025281839379826, 2622120433097805165, 958337731827793038],
    [166542739071623532, 2035873962871711462, 11577171074782301284, 2085441228637341683],
    [15991988998497110760, 15329892519484901517, 9970652657335662479, 829155180678653082],
    [10184680432714161461, 5566213524528646348, 13183856593952870303, 2142924867865300330],
    [8928892474714467728, 4735929153104683673, 16450571850048193527, 1645269340419016880],
    [9349443414948459998, 933860673783568658, 6465336298832146526, 3210776816582692435],
    [12593307191793889041, 10572724150473310773, 10700561362555274609, 2233924990469257630],
    [13183826532224522306, 15133029763306242482, 6244243154742187825, 924142288769654908],
    [16661613698371555289, 14500992319531116175, 6014517054613506090, 788605984931298191],
    [7007154570871159616, 11405879438854705521, 13856812801407838840, 2652687603473114436],
    [2666828308483942635, 2867021109437830448, 5700130361309932863, 3395448363534896426],
    [17412370150596118966, 9337527292448915650, 4938531934496797474, 2632988602950013875],
    [15335144003510907441, 11066109664451968332, 4434293913758339398, 2441923740978994205],
    [16938290206927833701, 7479787108845704280, 10577270228027206326, 2030989034622956304],
    [17092734250042084982, 3959077207759269170, 10390094891253219920, 3020601836715144363],
    [11586448047523940067, 17617730619044582731, 3912103441983536712, 563795485906771749],
    [10816324474234053487, 16477846613165684378, 11418849543266162024, 3097049135515669532],
    [16500205739230255747, 3020021011164015799, 1235608978632026059, 3291922877373447368],
    [4851289825451177101, 16062148658506731565, 14587432592213506459, 898272967305535726],
    [5078597837679100683, 7515356192024369531, 10763974042184588739, 218461046373272265],
    [12365948113486402197, 7291949757982112269, 170604537687643643, 2376374789967073128],
    [3419237705627427397, 16180611049156523720, 12940331367110848963, 3409053939370347972],
    [11979237740857760728, 15732986353159209652, 2064303486333859021, 2713084679157309451],
    [13359520377455285708, 17535986471778958214, 6066098226447018921, 388861307374288014],
    [12885054778698977213, 9218305119388083249, 5338204169253592884, 2641071517541109938],
    [8885688255595728106, 4501385603479053769, 8560079362077549733, 93182806724038309],
    [5828630259371621071, 8322177095384756080, 7737468148195642143, 2674348778533929416],
    [18247698033634670187, 3632176598102555870, 15309922457429650221, 2561470582507623304],
    [10134155531697105370, 13874993336960772164, 120926211250141084, 1384812324041198528],
    [621538171316433992, 7337435609984134468, 1830071337958148943, 2781785719141794989],
    [13469807406408669329, 14288489689238505217, 16377086202535271544, 3098996034907117078],
    [10024602646690155730, 17593038468992037174, 5008379915894352674, 1931023386004310531],
    [14392784254990637944, 17133420486550649533, 1463327889656965339, 749522753374641383],
    [12455179005107014824, 12342796897267427972, 15329288531556553559, 1699984037472157815],
    [1771542152598966351, 7842930995567544795, 9310075128329253577, 1282325117240924503],
    [7521313590472591674, 3423097365763472336, 3477360082254647642, 848792418653388222],
    [10085036827012134668, 15665082088852198944, 7052186614176868722, 2582327279830794339],
    [12476074060974471996, 3823026377923044563, 1876545222636277180, 325228693855900219],
    [4964376095008059238, 14788433185231634209, 3144548900359267813, 2387043168192608965],
    [8434157369492391684, 1399216338929346910, 497189560375855316, 1925410724921130134],
    [16907039221203035204, 7114131419245583435, 12533739114637930527, 320235082551441071],
    [6548380147236267772, 8457755526472578109, 11304209780263924397, 2262965618160724995],
    [13583819266510925817, 17540778986908752845, 8714241752513306071, 2123687285676360701],
    [12920936915167066001, 1303118682853335788, 17096931057772895034, 1491661622831777066],
    [18442788759015761313, 16094571045690859182, 1349782127102508890, 52078032712158071],
    [9826881466420996304, 4925917554904846789, 12185721450535193083, 3441032606980150190],
    [2651163447008429899, 17069367828318242220, 13087292531199187322, 764899163463942707],
    [14587722143179709340, 1499017639447504806, 5309740065035799718, 2255138379148733969],
    [18071689956022501331, 4208593701108494904, 920131484375740334, 995606799428260625],
    [1215570147278764981, 7484817518500110787, 15297561481971201600, 2378226490946577529],
    [6701504958943787262, 12159685646913680148, 14086604912660376886, 1453794700666641414],
    [9334528486080198115, 9026285089644657125, 4585688782002471959, 2724806293365756884],
    [12581709950149966147, 7321088671534691329, 4539903610141644553, 1523176448338356669],
    [10291832074258343181, 1435704338978152137, 9047009950207140611, 2469187173665855554],
    [15861169395772737563, 3142406623288005500, 3677368509227659428, 643605647225731089],
    [16168860801951952341, 14630734772533428017, 14617135328905978010, 469625567989565040],
    [16061657360525776276, 8404017342743768445, 10881568610495349040, 1719511776348974498],
    [3380103864659439132, 4646690760991297390, 7899645907112276685, 2434566900741525811],
    [9786128945568247350, 11640217797751278830, 9289548027592035265, 786746464943278535],
    [4662492732364294379, 2458970123503892620, 8863290070584661334, 251751744650574975],
    [11900596029172988672, 14098203130941552385, 11987822201766677738, 2811885092023744147],
    [747844002064217027, 15042831961905322644, 10242180382496214664, 1006591563553826703],
    [15128257678568995582, 12513557032206362762, 11848082437784506057, 2979693874020362086],
    [8350840692696812099, 3909422949104074788, 104851033891432138, 1046726708734376926],
    [751902212708065231, 1485857540489805786, 4107406411472979366, 646633513373065661],
    [13877242558684923142, 6858999653099557420, 5770194604057055449, 2983885949373114094],
    [10788810082500411790, 14652358284940263884, 391765152671350718, 1537630067646952652],
    [8662048254351783137, 3010353462755791008, 16465364522620817210, 930110183749534363],
    [6303830352500904782, 1258080730625306603, 6259925207784850898, 2442839863006184817],
    [15835597237213088452, 14232189044507140396, 17543802875219054218, 307588745611552214],
    [6211640479738348020, 1705598603494130038, 7066597468816611473, 1715221113461633479],
    [14398628652909114356, 6442901830458823505, 8927289586777609538, 887153270470725554],
    [15114924013106271606, 15064605309542568454, 7342783209613908451, 250591488468742087],
    [14848972516612983642, 16172087456927020068, 1528940713302251435, 3176368908629752320],
    [2229420996002375673, 5041286048406560084, 15382655832786709822, 1206275287769482751],
    [4092602473137367496, 5484625947646506197, 18267290188188181039, 1092698411201227605],
    [9249187538137589268, 1477356741524338787, 4820199200472039475, 2989069314909592659],
    [5564276524123322292, 7270699650656853796, 6104114048427075864, 2507727385709261065],
    [5849644130356935466, 5169974196945025998, 14642979402380253619, 418634030079601164],
    [12225569617883140308, 13126160199133894714, 10423167437112904160, 2164798415711728225],
    [3029040264657009691, 11485096135958994360, 10431279827997692731, 3109788314838637626],
    [18328521412225719372, 10131165150923326119, 1916670505659797312, 1421703616959756452],
    [1310058254606747341, 9810800161247612799, 15805266735570472098, 926670662982372336],
    [8091558463765964375, 6510661231649337483, 13607265264821562184, 1987474508750681057],
    [14271016891392158823, 12397700625321792918, 4547586061163512332, 3354467428275665235],
    [16041474051294533310, 8109012166835622531, 1949769753781022995, 3416299243799878580],
    [5214504327762648767, 11984882584619327731, 282343165713648555, 1515155601453525468],
    [18208110575778081288, 12870506257634284775, 13921211038114627649, 3333518293998393693],
    [18032116934169910049, 11555227301157740228, 9399948666221821046, 1676023714133963222],
    [6304380669092372029, 15342045879669644166, 13002363521824627565, 2497431761268065084],
    [15057794087547398182, 14676515517114377742, 5848548789349882384, 1211581201650249870],
    [11806440008422149263, 11759545090429987820, 7901644809630752544, 1378887349592193410],
    [3381141106532562131, 12039178583475780509, 475929142752300204, 1049394966704405121],
    [3604319260073639563, 14234628327667801401, 5260532086927355248, 2844593387087425554],
    [6879385558668425438, 17517687038567339562, 16163732437830702325, 3128397739388593430],
    [5704708633274898905, 7047855095953015604, 7694216488820103984, 2205495571540831272],
    [17799562837409159357, 11785597958026116837, 1065192701050623568, 620746292146370452],
    [6979369762160485950, 8874601488418137202, 3997125366077242007, 1286090739415588666],
    [2026177202743523745, 15082746377558398211, 12622376268369459050, 549083133067360205],
    [12597759897686568698, 3829262835817141487, 2455102261324341957, 1075493238576505429],
    [7613289745863651072, 17401945743228059395, 9395479094790913823, 1263746882567770597],
    [16485232110060711636, 5455670915555037281, 3702652939304784547, 725165421194311098],
    [16715452110961610731, 10783761738060228032, 10701749474036719376, 1346202202821757555],
    [12402524897201330528, 7476278165144166863, 17823983785848520628, 3269516453412053235],
    [13965237519659213149, 6331588578149754077, 16224043343370731150, 1277958150912448906],
    [5517383673323624863, 14967626657344353930, 2612934253466534045, 3431150477149263224],
    [9610269065699565894, 17825198935037724573, 2243655835251447271, 2639497359913851143],
    [14485880867964803751, 16547679931963635456, 3491441965934620822, 2693955976997035218],
    [5399499969117585432, 17473982459141377037, 16958281904542730277, 896775450139344865],
    [2198190335522167947, 6712432015753592155, 4845574532649291752, 2033602723456898981],
    [1918945375003660554, 16759350683957065365, 65498658833553997, 1585866543571799234],
    [7229799517844544004, 4049046997595947554, 5562323917195722003, 693632160906084949],
    [15866866044574648159, 11564495007705935791, 15653255073686722197, 732616942317269736],
    [7547975152777862435, 723678079695596872, 2031819832242004530, 2758876007995638774],
    [2438393487627770430, 14307394466278672430, 17537161207323926820, 1953023384069299066],
    [18446641147111060790, 1429452251769420165, 6993879040421496899, 1881638880636450659],
    [2304809369764810078, 11606106372721084407, 11343907343228182496, 2660317198965882750],
    [4429736232355479533, 4503755620860341876, 1778523939408820461, 409110269154244701],
    [262176277782508963, 1090805162536577057, 17009124016302391276, 2371793873858140986],
    [8362362995520144867, 9010871522259618944, 10310161726168646333, 568622161300345069],
    [14540989720663925078, 18183022587808112919, 18354582884038458914, 876022077144579378],
    [4097707454380028908, 12636089861079533587, 2844581869809757502, 1841560128494409364],
    [14324370538350920006, 482317090574552028, 15408940108852759223, 357797899754933440],
    [7191057041884265726, 17701856172878850637, 875044303596527622, 2700506646109493237],
    [15464028802817920129, 8941697518812385404, 3600671733306187881, 3427685617076719326],
    [13508212972715702239, 8407692419153537742, 644508859379538462, 199042768671646849],
    [10474111452176677949, 18244577776700099277, 5395350584853825506, 942947969465169176],
    [9926313487575132586, 8697621741262711527, 6864117049595615006, 2826045830128090968],
    [10009605161344871474, 8983542837973196619, 4684103069082941807, 2942400012472950303],
    [1259164384898203525, 4122306053902645488, 94767147324972225, 917515283996229333],
    [8654954863884126364, 16977157384067639611, 3248530887611003664, 3398449952997202215],
    [1104053337879893854, 18253896926989378353, 18296545647291762036, 2388321713716964781],
    [6826054153259750812, 7738412954026374912, 821687559417168395, 365197834280245645],
    [13900752896348732800, 15760288817406024922, 1529927915507051086, 3229496822560043758],
    [17225929808602789033, 9837335936141689410, 15544119226245612632, 2603622563957706587],
    [929691620402416480, 6299253830143839882, 2477667751481409648, 3133293409232510470],
    [7158071368804423627, 5404175852536632449, 948395796259106877, 2368492840768567028],
    [9266345163892845891, 3613878073693156234, 243352783029560269, 1581781232918529792],
    [519855252571788422, 3603376640813920457, 12436555393980483500, 385639159389340627],
    [2527890888390134533, 5465107763917900530, 11959942638002871390, 1118854615764497343],
    [5570312546165519477, 1373635975311231173, 9834866753082653324, 3267194463718493878],
    [7125978199592201557, 5485588281190254809, 3151657643005168889, 131271180465649963],
    [11006512344269790727, 11336804094955503449, 11892335804858129262, 1287440808085943760],
    [7607371969929921893, 12185941786709003801, 15241454664697425026, 979221009202500433],
    [9316618512408496121, 16160845557591707403, 7590079586425152042, 2217193986671479761],
    [4672365389975159461, 3952348499922831733, 17855048552828233495, 1362239269376483717],
    [16337494513789842094, 10582185345831052112, 14900341745564765619, 2845534714869139280],
    [14122029480226876041, 2698526615297147401, 11340009665631995956, 2484452473010330149],
    [15113269931250065279, 9023707287257894901, 3417899291431264970, 3155969226876683684],
    [8593666772062581128, 12196029749184519587, 14707451092704771258, 2267673081506369399],
    [16618096437709188798, 14544846139076135994, 3048599913116416282, 3088716428490355885],
    [402237598390896141, 7172683836892909142, 11618742346649817589, 1592459616510300980],
    [10022559581258134393, 339003402040339710, 4887098031375846203, 722275946851953003],
    [10834733482316540730, 6269146095770961816, 5412616019060329672, 3471848066716005620],
    [3513169312153274723, 13876128580813305786, 12193852086520416758, 3137163223177982593],
    [12006637772554652888, 3122723919997613028, 2167286960169067740, 2447280063578658701],
    [2374672740653711286, 696814233636988721, 2583314159849179193, 913866803649000103],
    [11112035660076264838, 8357352377090575303, 17325301459352387035, 961353996801840025],
    [9834457720909024595, 14777777878440798612, 9118324094720718617, 494486465555144782],
    [3748451273261766325, 13297681749300726586, 17786593370506263215, 939818615530836606],
    [3555139750542928730, 14771171876011261678, 10361556156564297776, 153539260306052924],
    [9252142855891621069, 17515867444443527466, 1400610959372273313, 1946537205026698180],
    [12248617681969291077, 6891557884704823627, 15318821296120235095, 3163735111670247332],
    [18211136560840954903, 10873066192431218050, 910653815224135250, 3183700287971648689],
    [825774577836686582, 5752612807496225547, 15467689086065842792, 240571009147130919],
    [12496433615379034500, 18201336237223048950, 6210773188324262964, 1055667283108115949],
    [15382594017582533864, 12407231356063974572, 13317691497289301479, 1768712090442457506],
    [14589940145571971823, 8819989985978186707, 17277540871849214999, 973373868477964471],
    [14559799587159180889, 14283065764493906377, 15062094059593602960, 1854273860256057651],
    [7472057617019317581, 2676124036386499624, 13592784222915727551, 810424849033648491],
    [9798209236688679244, 7304878435729741093, 7176874997747150511, 2262346572503052976],
    [12685278357039828004, 10394074193884086226, 12805674262262168131, 1673481643487578401],
    [11449195353550126228, 10531996572959514719, 4843973075590642494, 2691709798681595865],
    [10015516581767445034, 3237515246253832438, 15438649956502542385, 3087699439795330455],
    [15373780734023696632, 15603443238714183238, 11009258632955455798, 2794507412758769136],
    [5231008379407568979, 4698351808681278091, 13988406081349285045, 2401263238610746171],
    [14407816076198657002, 17014246882255720760, 4942480706106677547, 367820587846388612],
    [12390306544479005234, 12506492225706037578, 11270944824450946943, 1949207945744698092],
    [11461944657117530701, 5939663288152137796, 18248858169419620597, 37424867763781739],
    [15332077626446159127, 13750253719459873760, 14149169784221500190, 3447083569941219127],
    [17023226702318948972, 2823050450184080985, 9116900620518675457, 799379256338102444],
    [5951797239262039908, 17943988645414311868, 4249556217169223589, 122718180543739919],
    [12898694022710179605, 18430107476094458127, 1346698538205151850, 2529322537760333066],
    [2927053488083255585, 16486548475208651071, 3966280806203906095, 3408594389707518522],
    [10368997425238780598, 9351897699576227871, 10106830836032949728, 1974717881168674415],
    [13080965308543504918, 18024364005326979107, 9273948974439365019, 735304725553147696],
    [311144282549711010, 4817696423143432341, 4714424671867112788, 1281446920595220360],
    [9474475049247739105, 18291527010786490248, 2819595728516540271, 810415492688798198],
    [7104193152161547188, 5112960080336067136, 14650556992402049609, 2699282490734717893],
    [4546966072170911072, 6681422139785431518, 18137504336798303602, 2156108513021905359],
    [6646778141585114690, 997792260933243629, 14274684372918659475, 2680408595493847692],
    [11670058292685173275, 14188235926309657087, 12226886222015804545, 66214820094919358],
    [5218429804098380076, 3384772290600020972, 4322507421340371052, 2929282897324744521],
    [3620658913744354191, 13855347220695198337, 4274706276440513912, 1780939279538764683],
    [1976101712163449955, 6569847855299650986, 15828148405279791310, 3434432632770780492],
    [3263383220802053111, 10485411623650054503, 12768407380718265596, 156901433151239171],
    [12943715874051193715, 11343369998454844735, 9946910857251337637, 2507953190207628066],
    [17017980656306761007, 1769239386808479037, 16432792985490677023, 744675539251237909],
    [7544403165671071830, 12796438696634641497, 14015661147175758864, 1378140385244989986],
    [5484226930615808724, 736845589529436991, 13430793620986271659, 2199369204272484373],
    [3494914063311750604, 7891954027445360303, 14795462819652197541, 2616786652852774128],
    [14670176352958753646, 15937918852949759402, 9831216924746976126, 2013187741522040115],
    [17877855217223885551, 56489043448012876, 6622949043854512525, 1086052339662154131],
    [11227060241253448714, 1707016613950210429, 11044851937932437944, 612160198886736421],
    [13093083585007319500, 9912455925557912484, 14574477462225185177, 5937707205340556],
    [2492989092751793284, 7926358806245546240, 14567169528743204971, 1964215491997761254],
    [11384291635634891566, 11504746383450094647, 11399653412022904752, 2399189598235402926],
    [9466964979672162883, 7916026738848823966, 12788270391560692041, 1760360842562134611],
    [8920519390785756431, 14536347930268698012, 13460652072157801056, 1521030658808738668],
    [13947201340682383718, 15738020065678959837, 7831193209750025658, 2889392736800551486],
    [4402470659290508056, 4872352633345508571, 10333824347008039048, 587070091102269799],
    [7729561126952083399, 14616299767501002449, 2837426584130899028, 693153364659319041],
    [4887658217037015994, 11721767833516329051, 4442668199127485001, 996928543209496448],
    [15181872622489477962, 17310390275110609598, 3441333197611683246, 2111327730234583032],
    [17111893525207072872, 2032166220555613697, 11703297052468014784, 2569421527441144752],
    [11916337024101550158, 9091190970463060412, 13488912873489865333, 3213374420701717100],
    [8761245826794167094, 10956081175582603230, 13632012328423228019, 498084521292182573],
    [2123940284934457418, 16518663485077948728, 8440036303465742943, 1094017991363950282],
    [9105556537788420129, 10412771071128731058, 17669485483660524743, 821775380802165445],
    [12244723968599909560, 10698383799936323461, 16266008240284447693, 2031934942757173137],
    [7279714887758525028, 4240294001354492258, 11255187053785132456, 1303819440989509720],
    [14291538045130916106, 442191052225302630, 14513336126766781380, 2896567295059646444],
    [3991344217095025716, 6605772598248690027, 7966801376591493955, 655018726688168321],
    [1957591554928677287, 9015146140403472266, 6865070759369104348, 2006458415275159153],
    [4816463169164815089, 732352954996193133, 12141785764848887555, 941017606369659102],
    [8623279888915973170, 14669931975725882178, 6708426416797711737, 315444976707246843],
    [10216170112135028786, 16790087327723372283, 5744971771394618053, 847090404933028573],
    [16981597757635511766, 4773715608297400533, 15539257000294865368, 1076281665643025801],
    [622583206610997717, 9187893173145156020, 6123361998075658203, 120541871751569152],
    [2266045442391795164, 15230958060784080863, 14710310785901429464, 2115528437782963130],
    [8631275371987544949, 4475385947193396448, 4704711140559481360, 547714776489776688],
    [12666249684701862254, 9914151843234272225, 13428764138766111800, 1144187082748938878],
    [8633048092883276414, 9998900410588779214, 10629088102327339869, 514925237495856135],
    [1560439680940405323, 11062803614788125126, 16845862156145827311, 2923176090967997193],
    [9386813540665345611, 3182340925192197484, 18194127345950958791, 2336980065116270124],
    [16162624750706286546, 15010254155277963210, 10666761242502680022, 3349627624890566132],
    [7803502544391574820, 13254720549124433242, 13758313284534662631, 837269640708937865],
    [14587743055084135115, 17707195553561961789, 5246888990754796879, 2753309362576839220],
    [16196377966778289666, 5984179833382778906, 15854801639779622568, 1215817692308281676],
    [16078954176767327610, 7226881663080494949, 907729229116237298, 3289122490348828916],
    [6459612994104354057, 4921720851506120188, 8490597328648253920, 1859482823371845177],
    [1265205396127177277, 9951977679318576461, 2008866551208704568, 1893723776933494858],
    [1081460426577099167, 8928662007637707717, 11344645413083383939, 3387690380446698735],
    [17471199051896168060, 1163165396576669167, 3318477493732714256, 2858504220717987750],
    [14723802952993605224, 8290083791903505795, 12378387282879396823, 3463679561045751397],
    [12196593319594952809, 12551696649549875497, 16494765709363571100, 220262004585021502],
    [11847892106994045873, 7396856269467739886, 5305789989985772168, 2418017742966133967],
    [8738936964078209590, 1287386258306980436, 9091038802204785002, 3107930727184113329],
    [11733805186532827307, 11409124434216130262, 4913375933751141771, 2458534702488919733],
    [5301847813304227012, 7940697683677149123, 9489838169688581458, 580891482379734666],
    [8273357998248595747, 13391668918900735235, 955980096357715197, 1585801807868430888],
    [6347350562894616401, 15309774222245572639, 17894178459573493759, 455657239988591063],
    [4032115290197352487, 5988331387412702677, 13501948679276424904, 1214714154873772888],
    [14757951932589699127, 12293929435325650698, 10543180945171524499, 2128521148766875703],
    [6781464369963360831, 3038820790700846367, 44878341271628271, 1858793582852816831],
    [12410584890112622222, 13478383461452024483, 3548703115399858135, 1896712411231270207],
    [9629497041701743371, 7228898575423455485, 2900600117600233846, 1941393203850602348],
    [11802148154953511474, 616780514452656760, 2151823284436465456, 988733040873132219],
    [624990167928495441, 11675509168281719080, 6775094908870524778, 1590827624621381090],
    [14140818511476919545, 14361184531797481404, 3703454964992603461, 1136172614705805213],
    [12702206122997727707, 16766920626176196207, 14848401470437537705, 1093459094150606972],
    [1713428192690015772, 3500609532974076872, 9816066394396231792, 3385958667639202407],
    [10549044256423915904, 779332575221789555, 7591666447453199211, 3077334314645826970],
    [12655750970156826681, 9198531513343458007, 9411412823267984653, 3331376769598236262],
    [14772056516644161750, 13263816233226157778, 12001290695741920083, 1744002814647720044],
    [9725155088302534890, 16781576755309902326, 11157171517462419912, 1056142650808030537],
    [17882676712054752702, 8610677368100582613, 6520253512936091040, 686086958965232496],
    [2659272299107062857, 2282424468385797239, 10601342305109757398, 2842523951197784697],
    [319723586891183770, 16312916312391968744, 7828146508727796536, 3342273024119615605],
    [15513760951264421416, 3302695403135810656, 2992116258601472022, 172754127601588578],
    [744981810667961392, 8120090275487665971, 9020666848470498109, 2614423198801033617],
    [18086864254432696527, 13587871164154663820, 17183435412817533101, 3111218346783496887],
    [12345820006909992535, 3260249875584186465, 2524364510507551432, 2550793417994858919],
    [374574737032012817, 13496049437817941472, 6283191980660042781, 2953427599523378234],
    [345269932858968765, 6014647373626797532, 16989597429211812828, 91698042494879145],
    [2792201409712117770, 14977344600952596566, 16270812249729033960, 1617767121830911738],
    [5685789519963335577, 4685930166882986599, 6294152727060066739, 916260277033445985],
    [414180914674526340, 14902535104711354153, 5570927484212776718, 3271789015508762694],
    [5583021251757941099, 13254111985650813528, 12411985517591277842, 61874617301072883],
    [9430500007409638522, 12686919273714920362, 12553427357496830019, 1272709825718933335],
    [3184488318871928869, 3493188328318322445, 6591096772445965239, 2525732364274301809],
    [12040104852219455809, 15154983196110948275, 1506730592948746350, 720276856599392166],
    [8105874590682791810, 10894761394664159226, 5321747207243066887, 1299569507662183378],
    [17974822913009790377, 14930734225210376690, 7191446919662534340, 2741746371912501049],
    [3779174332762933332, 16026324576198937400, 4920766770023721180, 1325569210963539436],
    [15550044370880192249, 5049765787563068326, 7350075829197278748, 2954528424418845661],
    [16925012853378600833, 2499591646680681258, 10890852673894001004, 199898205437264352],
    [5873367451476062139, 14918325927377794652, 8076115733883983165, 2539014391565383555],
    [5025110518545305168, 6320454467030158375, 7133380326072520773, 3130891123135695738],
    [2563890619069573205, 15626216059644008972, 13117283873061133655, 1673345186387931591],
    [13369321340873089464, 535134348793876017, 15280047833815481993, 3355231304200217075],
    [4851709305427023965, 8783820569978758645, 15765730584947575073, 1622421209639920881],
    [14686018652463310159, 13063629512556597729, 3153713818489459350, 1380731815450493437],
    [3979004534698863360, 222936917219997543, 7715297330441986558, 1002975296585169190],
    [13648474316668793734, 7121753201611042454, 16561724219729401143, 3199865301265440330],
    [8521185920010735410, 16723313756045107784, 4759351981116443558, 2124599190936967341],
    [10814394384982432751, 1180833633418719653, 3745829824438517608, 454281366743242307],
    [9545235375407748704, 17549131547737890787, 18212986665516582223, 2443570436762163679],
    [18016373554066666716, 14094723315705059691, 14256449562763899475, 1652269156811607433],
    [11972825349805212523, 2892734387164577316, 312434924881826858, 752112099160160792],
    [15051416372608421736, 12170016101027915329, 11506976452587687140, 636594453382822665],
    [8230272036075358226, 13573671075935535569, 10468787461524052542, 1130852464162691004],
    [4827202203356451108, 16630555109741326421, 17347985590259408045, 761659245814096627],
    [15676598369310722340, 8175301844200399430, 12625085207110825924, 3293040850918549896],
    [11220219556398165327, 6726554070506260326, 6716994644134510805, 1978311662710897703],
    [3765032046062568231, 17771848839204468199, 13142565988052786727, 1244494208921333235],
    [17681056019671952348, 1611255053516750230, 1083552551948914871, 1940935499782183749],
    [17838851752458567250, 12925393349513442188, 5153087232255363669, 2647542551245690587],
    [15433271850315020175, 1224035378117979101, 8093761286073249530, 3091655866682275244],
    [5916774397181995248, 11592493856990838565, 14905332891601099239, 1611396041995087131],
    [10165282386778720126, 15898550138570793488, 18150650494673336253, 1996172924959342757],
    [13486114102921346347, 9140623467412563415, 3867875908159120947, 1759041589600324191],
    [10340803425477081613, 5044883570549898337, 12277467089620765436, 210292436334428125],
    [9014558174477545347, 2494951297753420077, 3411148071011787381, 2155100957516875405],
    [7512865427738921464, 13483503737866169643, 7540629705186495914, 2187183625455205419],
    [12416674126725629826, 17137092398421667652, 15767154648015431951, 2856452382903433021],
    [8473369703009871735, 10157342458695746994, 13522995189320375427, 43304168092326033],
    [6606727282479134553, 13436915131746903195, 1509261245986701507, 3477807963036574974],
    [12747891183075235823, 10128760721544115518, 6413773513302217959, 1043337599562785608],
    [4727067924326450872, 492808864679178395, 8240715853383365198, 1224427220110609903],
    [11857728979419745315, 7299001193561165202, 2192082590971843719, 1624919219170613006],
    [12563169166537931205, 1337543431748547259, 6261739039645885863, 946913929845721173],
    [13169531019530215231, 13220013392219966670, 13293882605017213236, 2172354463811468393],
    [4688106273254505778, 15600539005579537657, 18174490451936142162, 2499749785203535914],
    [10106170585044635574, 8443299455890917395, 6153941892451855738, 1363635838345671014],
    [12118812823962722512, 2878281548067159409, 15778491591491626837, 2998429629805595684],
    [8519519205337657909, 17597038085557304354, 5707704981571198443, 1099595161086538008],
    [2630523648506194409, 16668640928104981942, 11461128267751420868, 2008698455625615682],
    [4861861427105934534, 16450706922731596502, 2274806577708215672, 1143003695018841778],
    [9248385425492322835, 3503751931492264111, 4097158941807537038, 1399047836460257352],
    [7849056258016929387, 124195536708300123, 17087066946059787211, 397517526278235044],
    [14740388605434383379, 1394526963135886609, 12245315269013237352, 2015830946174324588],
    [15967138626420918200, 3261963388853009787, 13408302841994414708, 3101844020467134499],
    [7935217780424522111, 3150474585965342432, 10430350468049573045, 1860415566157927557],
    [8300550444598703098, 8194384448828603254, 5081926569180979258, 1481859703349770141],
    [12611928131866712310, 8001066238413932237, 16630908982582467563, 2564785771271213641],
    [5776022479717480514, 315400836787967210, 6411407345483501513, 775454368582641405],
    [7983468241182786001, 6530384842710373128, 1227871076205175355, 774116276917908697],
    [16561898808021670876, 12053304375562840416, 13383887841630556376, 2619657341628821449],
    [3655855288398640352, 889129083081445517, 5828175327972833006, 1490147266322305634],
    [2073662369262083180, 15580333806325490315, 16292077384379301493, 2350975138631977179],
    [15628877033666216762, 3415674624737187799, 11924748127564121381, 2567153654412993677],
    [7328958824777016519, 10823345291133306081, 14791659753864986, 2887889944335901123],
    [13855630665324053843, 10501178583160334141, 9366008233932927361, 3168262908198183552],
    [14787099511755576197, 16900263725076821456, 15670188581579193703, 2720535893433640131],
    [2278587347688434621, 8460683120051439577, 600513776104921154, 2107071366024431215],
    [3827773909774360400, 9970501888602777822, 4273538910831587007, 790268952961569046],
    [4523419177337849648, 9488089777094833333, 10749813072890584058, 247943984908287524],
    [6645785623322050808, 2215645231525341116, 18164576486386842813, 1417171256747886151],
    [11359716714275928870, 13158760755293219726, 9170086164727341643, 364709102753245053],
    [1864005610956645267, 14627682532745980574, 17996044607153954114, 915063943320094432],
    [13147421729740173042, 8113636862000265896, 491770373771261301, 726315600079128057],
    [7109981000894997117, 14414140562548921622, 9635658832810707695, 2530736172093131828],
    [2424040150625817424, 10020209584497473866, 1741034247427635853, 3367777765935730005],
    [1618513277061117854, 2143893871381809685, 4317438611773850034, 2101213899656773700],
    [11918488225528054170, 15691325071362486690, 6271413291364998209, 2842713491190332345],
    [5878315537668258235, 7324049032174595943, 14195298237662088955, 2287662784296132619],
    [9203257613439864746, 6429718855841093099, 3424026684771929535, 1097620603979641083],
    [11792602489290275562, 2421782135842764220, 7400444687385989248, 725483761601831176],
    [16451554924739686974, 9266340212661447088, 14745116323630436025, 3474608689918006062],
    [9123452450590675329, 12026001016661503186, 17873067947688586603, 1442250471137533372],
    [1974851714309803300, 9658711403384797761, 7349644618341129265, 1259114708004395716],
    [4282367373058915770, 12295516465439671671, 10004547008128439532, 505340919029471667],
    [3155989602436002224, 2319632500602061580, 14915087691450313134, 3251038173509805582],
    [300511614966094396, 13891506959569641781, 4105396343131091747, 1270038407521844767],
    [110295059199807833, 1011811265611881522, 7855076837615895947, 400340753466024892],
    [17373522419694919284, 14199803395662496680, 135270522131398559, 1957609566477128066],
    [16526944156946352906, 333656290518988710, 16142910872403479332, 408593060323899374],
    [7519877741871426935, 2849381969913559621, 14547709170808193826, 289790440170711465],
    [1160550778782128665, 1748033475305958502, 15257425121457171514, 2423437728469806312],
    [2387225583960457472, 17546451781213090244, 10091474758221477955, 2317365589692013299],
    [15354468134369365152, 2030318881570441793, 5538454975329935932, 2643746217223991606],
    [3755464344096463385, 16502118382615027973, 15662047153293532172, 2412239807013991151],
    [1355383784202019133, 15391229433564071966, 14231599175186721062, 3011691762276580461],
    [10943667707635023346, 879627326250041355, 8215838058947909090, 3137090335077785853],
    [12639871776714705243, 13774826408333175695, 6507160315858318561, 1421690321292364129],
    [14428531898249864209, 7635960998996435694, 1177529595922091245, 3138989117986450186],
    [17965287558068597472, 6231040386088967427, 3327481243063978986, 194734699531116706],
    [7351008047189177938, 5935423743658805404, 5607140413328677802, 505383564198973561],
    [18251897161005737005, 5714139721146503401, 8900964639726405581, 3240878998762076038],
    [2604844377480997925, 18281342742356976978, 12499757439158287733, 3476597010448164526],
    [13393399279858765606, 3362838079496889861, 3729730279014376428, 656226523607782547],
    [948415619160579634, 1407245575887629307, 14507663276069742498, 140852898142369235],
    [14868609736894024096, 10018095073075711999, 16034318610357805693, 2258875662206573366],
    [12350198255220729533, 14141385432830960150, 14089449728735099114, 996940051245245030],
    [15745806857147847748, 2768304420120410918, 13865716858704005757, 2804121637728820193],
    [6448070426060573494, 10775508560337890380, 4976988451822599460, 464488168976896875],
    [11351832197668380072, 5649365891177621111, 5519533260507400938, 514744397216772101],
    [16325591120843021225, 1596722060692361190, 1696831840635733104, 2074430964445240679],
    [10242487633296831137, 14247851818792534560, 3512910125022837754, 3123318107169772541],
    [3723956278790672267, 2484793875181160161, 7768568334565346859, 2711656888802086946],
    [5691641446185494567, 17565365746014864959, 10928962674855765435, 127036456129688136],
    [8539384502223274677, 12582135471779978166, 6772743035582669858, 424543639836232266],
    [7739959898543139266, 2747228099017180169, 727925549718740165, 539349171147966983],
    [13214760878704701769, 17181691158484334244, 2490469246157781041, 217284729460894117],
    [588949738200175934, 4997007633763496593, 15304254876486244026, 2823776025767547232],
    [2961506456046643158, 4552212251933143264, 12115803219069578752, 886582335709268366],
    [17771345806174170130, 7579548968094318868, 12289483028666717306, 2069844761308359229],
    [7967685166357106540, 1898750225871942661, 7490906367958898576, 1876379507295175636],
    [17985588331727240062, 294480873144853017, 14052303816128488049, 2366665899754565214],
    [3183453106044059851, 18397829102683737276, 7329160925806946967, 736825138867573758],
    [16674873647295512430, 3883797769065111478, 17011737372417885162, 999894754144888543],
    [6816147502686636780, 7953816962053992620, 10900845229840212671, 286025585516078649],
    [10633579346396064326, 8185240829226082009, 973027313939692556, 591568458682902421],
    [4923243152619030901, 4374494037608804694, 4281895632105380007, 1301256188920586479],
    [3445877326589719129, 6828233235921872333, 15340040897603731464, 409760908970178843],
    [12338513213425194399, 17023669412945173589, 3012980628982608176, 1119241441416062204],
    [15112096197487922972, 892845961559636810, 15400224076556276122, 681499442664818646],
    [8431449892550667953, 9644615587562671053, 6356911590609496919, 2119985056558321560],
    [13049278204719811412, 15414198972201113451, 4254120733524845735, 564170194057756905],
    [13461817160879942571, 5821366526751979915, 11164740455937138951, 1263407618705931742],
    [11569655922292360253, 12321338903041474573, 7366023110134625793, 2620667506169706085],
    [5641660369300883930, 10165076147908209864, 7006265076657507757, 3236787916751149222],
    [11903884186184323400, 11442070584743625351, 8898948483776946238, 1967595028877651587],
    [6938204081740386520, 1025169413160891683, 1055517440518612732, 576557203954380120],
    [3956771627072598187, 593935232691868331, 12104158306666971093, 1239031101399631207],
    [7410926834696565156, 11506680683829198896, 16233059922558676075, 2100804306064063511],
    [8893732907220585649, 12098416934871809400, 1733620106625871224, 508980561143792495],
    [17975555756457702886, 8570700788242134488, 6987524030952316074, 3467356855359768543],
    [11703969864212322797, 6073180566401743495, 4735863209258681696, 2704133918423451264],
    [9721912925259292827, 1325747538397449112, 13172825394657839239, 1258230036591516903],
    [13909721734453035301, 12751073417028119359, 10892115405345833007, 2170449400839469852],
    [1455364272970876622, 2991108459417576303, 9657724253466767819, 113379782447524982],
    [1209791565704265103, 4081137859392489177, 11835064164962227641, 709673802431646787],
    [976056605486006068, 4911889327214500849, 772523946272675970, 1793584473193352995],
    [15651195765058081656, 15496778527484115463, 8601188336351368447, 2724950178332843673],
    [6049463315547554124, 16647145627599736363, 17113298417041726647, 390934470759867073],
    [5436161768342780737, 8775637606233769868, 5994906980810389075, 2368182334319739598],
    [16926946406226894944, 5277272807369716098, 10272212494607204902, 340440503872418962],
    [19622923510031872, 8734572644310779779, 14617173792985728415, 664080905499619506],
    [11933962792717306203, 2828119254343441371, 2636181480828374216, 2383730146135588877],
    [10814656870077836689, 13244340156927910936, 2039384302550685725, 2833283213493736402],
    [4688952747103076215, 11341151318641627172, 9976163589030258429, 925782778211396139],
    [4924151136635672606, 11047872697002914329, 9482582441827311954, 181196959699654626],
    [2905380337608545432, 17464624987303289824, 14891382136133913060, 1653236493357883649],
    [11976449395395358733, 11083329156360575802, 2120161934317385778, 2913707813846752872],
    [1398867917440056305, 11016646321354203590, 11342092192033423839, 1570876305054011942],
    [736623328321544459, 18304755083903790813, 17125452871046181549, 776511448761911201],
    [2168870093725256066, 3210305763170463992, 13917793955521390087, 2686815701181332535],
    [840281714591956523, 10261214619349848040, 2076436207285117859, 2884917094026879390],
    [9162562452280657725, 9212799284149066261, 15877770105284125094, 926364264979422103],
    [18243891585920428077, 18358140202896244422, 748646760415987985, 883705372785050666],
    [14555943629589972491, 2495266761742847460, 16467297697872953557, 2422590815083138680],
    [1712100555590631795, 11886555135551717099, 12152303205213917886, 261369801220534766],
    [4132767694571387299, 18271995256211408234, 7141409406897920932, 1219278969752508365],
    [15356041187268852784, 4210486058257000053, 1077739752026781327, 2507951460716597035],
    [15319889299572250798, 14850694718865064577, 6250423249973030422, 1771198161639682313],
    [5968205123193605617, 5631781548641980189, 38372606686582292, 2745452968575978404],
    [10316556726073605817, 16827401578984901077, 17408562083546258737, 163474622052768278],
    [12914615482577353918, 16049445227246128266, 11472581243135066503, 1651675186140628619],
    [13668205519024143056, 15175983906859388038, 3622570529524901653, 3153677107983246162],
    [13967003341963913763, 11086850736967374530, 8312176490190831723, 44714892513795980],
    [8683072208475552137, 1772770783570938263, 3630305069928005665, 1790968708116524018],
    [8585599462854184681, 3182423117162865839, 13868477832726312079, 803330272646129722],
    [10661996710026219883, 5486315193619198760, 18321618839552498942, 2879719977073407100],
    [3310144545466086954, 10721778900877608586, 11650509448940603383, 1175644152716908439],
    [6918804102741088800, 9221399707367078124, 1947002635097759444, 566840100086756657],
    [13750458747339835948, 13275888881686898942, 17023539933907675676, 1525143253082312594],
    [9826358825548789516, 12281858536068664811, 1705120528613965019, 2440463828023267900],
    [17856192524926451985, 3936636789273701923, 13165509904177884278, 2009579895882228631],
    [6842679263176394585, 16567980563805762423, 731233608712209179, 1794597669162853158],
    [2929464555482635221, 13134826650062025195, 8359422099164721891, 10124264694613367],
    [10566493371346607589, 17039876145733936281, 1344630396314830, 2625842826398269802],
    [386133427619348460, 14336415065231988676, 283562196569463175, 2098606555875311624],
    [13150294070713250663, 15444722327323656977, 4932495248089423567, 179967934196538118],
    [4555947769420838994, 790854958893302092, 2944527508913585896, 3266146574037657468],
    [6932983785791627224, 17631512596987502646, 9351884141124208193, 1365040695553056580],
    [5354500673998955795, 4926856151490399934, 15152751886127826601, 3386833807275785593],
    [7851077646535995066, 979206998519115, 11150635267140483957, 2949089972508706242],
    [8147593468605349467, 17565022384931432882, 17510113614672274513, 2963723544433812370],
    [12708101376763062269, 5043754195621010616, 6467007314910833226, 1723376651181267568],
    [12131297241267027542, 5866668033890504829, 17440922801804459639, 1879827480788876163],
    [3507892015553586890, 13650386832458459662, 11740036500936788740, 598675179579720151],
    [9793589755926923821, 16252554144852708227, 16637283827327582853, 3368960814035474185],
    [2897681432349460352, 8607223135713950134, 10072991909178198676, 1610004346930522991],
    [10626459338146933429, 16677252679578769815, 6408021842861395865, 2272109712090253417],
    [4033620625152888787, 9167200212905329650, 2288462746602642433, 2412249167611019264],
    [16284012449768331851, 5636541775177249081, 8141551103513841309, 402748733203117140],
    [17304940736575353083, 12976903433373739407, 2758505243718496471, 852009250115736695],
    [5078080477981893802, 5880641002963318580, 15619505732050499652, 1505593480586182557],
    [11942233229455486380, 15902088832949143911, 7484723644045154856, 684741429830291617],
    [9723970540735433409, 16106368058458332798, 7158022036060255056, 2713100956260081293],
    [8823050016473703654, 15239792311489878062, 7194580165888497349, 3220709949611209742],
    [1732993032588589818, 12921666435861389766, 13858345322994170318, 482779888798603138],
    [2397544514766978887, 18405807160580674289, 17173112326239514779, 716646369405005419],
    [10044021294468282360, 16606546876719754375, 13272461606217163251, 3476823014259275501],
    [13233398849344983437, 425654511640168275, 12234606506229563525, 32349424707976251],
    [13008619030652785664, 1553638542481439280, 9226933594814013855, 2093118758683654398],
    [8177947118074898907, 14732407590875267627, 7063362279239467435, 3322371677445940100],
    [7470636356360415915, 15175118725526769409, 2082736439178045768, 2961349839434248762],
    [2253618849330278154, 15912420302430253012, 4915776841367865605, 335779753709585761],
    [14742940361168294528, 2248589040381565504, 13997441105976567245, 2751548694934314116],
    [2789126194603259174, 3202374671645298205, 5369407959350106815, 1051656286164493554],
    [5486206209587040617, 17886798529185585227, 7312762573898959486, 1913055928060705354],
    [11223064745370906389, 8330170168544559875, 10049154318325183304, 405727658834424223],
    [5107138435016760578, 1768510278031054218, 4877982846027024488, 1196354551076974313],
    [3219845091577376222, 5658840863686193654, 1704595469222041108, 1246342845277692115],
    [16869659093213413417, 16125721633410973723, 17368452599545403449, 2300477042531479218],
    [16828213430157052365, 18230178843775384886, 12708537517220713639, 2088350841972461895],
    [969149901257731458, 715427468769014905, 13478506672997600544, 3183536730906654096],
    [17204581207592231354, 1881632369373261785, 13511473817904153507, 1797675879239010804],
    [10864722356003826434, 436971717913516700, 4921039075918512261, 302223612231728590],
    [15880875350848446355, 17206513181179070618, 13696887803170346757, 933159654511468913],
    [8843464527182664309, 3420760891656548376, 8473081154094942963, 722620514382160550],
    [13500535930835148746, 7364807010947006758, 3491848919600637135, 1827226870468894382],
    [17965220661853177711, 5781485232442308554, 8055344023759580377, 3188175103049004468],
    [7745415310369082412, 2016078782348072256, 9035210900144859539, 1153066188859647497],
    [17008122416953977979, 6715205264788718162, 11070569586372645231, 708773840765835483],
    [3611917460783075719, 6902397528260206714, 7212556260839933231, 3023621653466544065],
    [4790716765062250880, 18303074171025221624, 18028328160695428355, 3060153651088436701],
    [11589793113579618579, 7169331945083698025, 917492353542120746, 907001372217021543],
    [2514108024704302266, 17654996302508987816, 2267719205600451603, 918630399251834498],
    [451703699084791929, 9525415006079986080, 8401016022033511392, 1620254187559985205],
    [2576263126309894481, 3312774001207560959, 8626030518129687378, 1707026406046357754],
    [9773220882380925905, 15285974886986698872, 2453717134852764239, 1532432461704654400],
    [3242437487850784342, 14466134660478576621, 2039244012954544382, 274871477250856947],
    [17659415096591184308, 2292825229208295855, 12854357017156751302, 2041147208106905105],
    [9173416224279725350, 9904143998979049607, 7240995503738027641, 1853548584890659844],
    [7917814652429594785, 1770801906241204888, 10444297878741387035, 94139246016421164],
    [14572900975455943942, 16719148704077111272, 6476773158921262423, 1114265467667416101],
    [17961494124849796233, 8406096611404312062, 6349752722720672050, 570125475691131808],
    [12414445830959575906, 8918561668582866142, 14504077508237028237, 3446719018695856393],
    [3618566726313604899, 18024148667658592259, 8085009024567074690, 1979738607576415569],
    [8112399972284654754, 10657780735897795954, 13695616841425802796, 901574700379008903],
    [10794180891872981736, 14632681765762274850, 8451602409697783958, 2295576814404156184],
    [17965090464741533268, 1522812788372765232, 16891871741913349528, 3213982998707613133],
    [7177793303744187691, 10686227783162472112, 8733948564668562817, 2572006994948797609],
    [8874807366352196739, 8751146549638043222, 4072164911806379028, 925087504888276176],
    [13428989660638688934, 1317067624645392701, 9278039478738486255, 1743476840165014544],
    [5482573796159797712, 15496646964908427082, 7867498401564406562, 306660449495275725],
    [9140631895537796002, 4845113708629431920, 8051741032111580350, 2227027295651757713],
    [17433790669533953296, 5883452759732055798, 2161272199428239096, 1024689714813270020],
    [9109662991344731975, 17631950833939861261, 9219139324690152268, 806606809295668156],
    [6086791392107883969, 2848029274760076000, 12025316411709143501, 1711050782770175208],
    [18311234655807905301, 11886599954819401826, 12553775736220362054, 2029147832243311027],
    [6807315637245641420, 10149619230693218652, 14682740289959803218, 1569170921167939943],
    [5749876827280743373, 6886276242839878428, 4381751636189264456, 2549885203013072464],
    [13423566475011231712, 1820289455684459834, 14752513840207402867, 2286668026718895043],
    [9265639810379515322, 4842462614809047544, 6386438816308312054, 1473036594549510014],
    [16602202586107948035, 10646424276112478305, 17701864041809528461, 2413369513309639958],
    [12985020496276507676, 812812526622195377, 1636649594584676664, 2621116647545276730],
    [4359910437365171695, 12085264673923412252, 15399864391429824724, 3121598488997949356],
    [4733862548372373538, 2422503016217820153, 15480775332612892887, 762532578904880890],
    [10452985160532596590, 10957487220976020213, 13521400523479286002, 1905454262537497513],
    [2742514999470979772, 17135732048370903548, 2969621941989905595, 1568878989478438320],
    [14558298742820271151, 8713882989662093489, 14758339328635352489, 2054934716325493654],
    [12998243183474908708, 2911544296799288727, 3423695590358795536, 1186025027121611058],
    [6573344432486349930, 691501357094612255, 7486538751129106847, 1924232325171279415],
    [16202183101920452815, 12570171034495147346, 1002441180490971289, 2104011023133714264],
    [14706887129817451877, 12559469648836827413, 5008307429511392945, 2397973759991210230],
    [2379636744856443569, 7037723355177451080, 6857438800578474540, 353918331165955177],
    [14901072681474195118, 12311325484281525922, 16343266326279085464, 3225001715927708063],
    [12810943456105274379, 4775083719117918691, 8702332993268566452, 1591449440221964966],
    [6744419592302360019, 2541950094621165437, 9187323496102782904, 381414143671135185],
    [13035857823115327251, 5644338573397394676, 781562203110684562, 2379360623684191033],
    [17336101178738551230, 11488604414068273383, 15938620665564126535, 1953873464514394456],
    [6128259995022457913, 12454046939554023854, 5889873181901216168, 609778124141481083],
    [6372790488054960212, 12201581673180872073, 3837909810458864108, 2148747813250814752],
    [16496231621568899608, 12124696891600496487, 4388543932041050160, 361839037465251420],
    [2965368933465367251, 3148443494113807326, 18058953651222739844, 1519246510120074722],
    [15479992265191884222, 1048513586318522048, 8070541973826920769, 1788116209765948046],
    [6696072070116171741, 8368339209834044601, 4531969564739737244, 2604388482614280328],
    [17911185479563048909, 343843235453470709, 1490992068472172550, 104944417341399850],
    [4494917060810144362, 8725076227062923491, 15885477132354195768, 1738676193573864751],
    [11301270482228421365, 15896746255796514637, 14669495197056756183, 824371042011111981],
    [15242993577499356320, 13374842422067984090, 508752023688846656, 2140418658747464417],
    [4385926662253030066, 3262295704616811463, 3690316070550611875, 2555675793919291282],
    [10055747842573306498, 10068188327008853819, 8700293157466275929, 950555327928730844],
    [5918153798238108476, 12755420941938245298, 5224908503823660156, 3065813226431477484],
    [10808665731673829036, 2393828603212235048, 11258968314276089251, 1426428266891634272],
    [5780003182597315392, 5064247853739100979, 3738431480346359680, 3090615470060214055],
    [17804346911147246387, 6569995923812294662, 11648618227636637293, 284895169888680573],
    [11074977834694122704, 9264290168631344448, 14686616734062275594, 661978555837340668],
    [2326443045228063626, 1238953533371304765, 12906714983645311826, 50076255818103208],
    [14669853212383476851, 9212379078723722623, 6901402445813243983, 926232607672140268],
    [10639918538899902715, 8689059026270354270, 4081793615842623384, 1296708737154045481],
    [238611820762138162, 6778436964845239924, 11447324842695804589, 938640997294605338],
    [8859816008572579631, 7199865475326251204, 14426703326736730361, 2519653205482415471],
    [17542432957694180971, 12847146455949466018, 14402252818435618808, 3148839498920740935],
    [18081958748468984113, 12877870639592911976, 12118391278343816523, 1206152578040589284],
    [14881070377541526980, 512576322870016595, 15112333787488647671, 3404780682011094307],
    [11982849735492342285, 12088039013584013251, 15082283154877598665, 1128108557261537674],
    [12683322874711033302, 11317297875230580418, 12553320977582665921, 832226082844293057],
    [15639856961243781746, 405394334564759502, 4701253721016112978, 1213303802532832261],
    [14117400411313687171, 11661518363361345604, 152400301892783644, 472339390933420782],
    [453327157578157142, 4159389438149380994, 5291564263461851106, 3417504293339665046],
    [13759790782116664188, 18323100985454458145, 6603951217486199538, 894601808676046955],
    [11675548869900021293, 14102329021832814557, 15642620071614719399, 2191860261716202409],
    [7805340003198221707, 12991009009075253196, 16831118683192128012, 1954868970479577473],
    [12337545487159299670, 14821584430587008671, 4161356446022149568, 360638717761123294],
    [4015291653909916883, 15965449498971912720, 13935509282915747158, 593704445919807108],
    [7936391874231239302, 6535363810831910717, 12698756765225938075, 1949489487554783033],
    [5016862425462509637, 12841985321387061300, 12233084486354141847, 383929457167666984],
    [13573003676141020641, 9470681275194592365, 13447686568444013020, 1606702238118574343],
    [14958244504929792987, 9377657771538894995, 11113300060728482155, 3381896870886077474],
    [5356121088733306883, 1558405737804539884, 11502726054942970015, 1920706737044884324],
    [14114273942502929155, 14089764410170283978, 17485377308826340060, 2901556693610942807],
    [1288726275089231669, 8739474136807168387, 14160071243951139766, 2628991153143719294],
    [16817150083690245037, 11907746759583563105, 1945569465766537648, 2405513992687880601],
    [16560087983094391545, 12326273608811295334, 7857073032265521764, 3291756055471584857],
    [7005559843494862669, 7623145056534556205, 3862478901107055463, 1803351895192171688],
    [10213628153658223409, 376634756350146086, 3442225394002919671, 54797138751699881],
    [4282346611705924555, 2253064561004887694, 10145537115443020750, 2788437451283457423],
    [3611082780443069613, 6721013603066854496, 10420704419036570828, 2029854791842459376],
    [9245827372962078200, 7985505560632955514, 7877542779893899024, 3304022132481928238],
    [13142874298027376374, 15615641549411535466, 9939547749566740531, 1265964009951584494],
    [6887012740529552159, 8017075952070013399, 6350143539745064284, 1331854660714441024],
    [180569462582539803, 14376451137058096984, 11072550519691613416, 3195639892058224868],
    [15137316622623550590, 8393126165005807653, 8353349529793354677, 1419274313358041016],
    [7905162104385193923, 6505376196396994891, 10272824684668836318, 2749727014705609823],
    [18062332598535842491, 6946451576415048289, 17230993401487937037, 2557148901401865776],
    [15719101845995101220, 3182201285143927962, 6506273456424223958, 2169280936320392539],
    [14552571448292970328, 772028968177580164, 8928914334341821272, 1134580764418077918],
    [1323601468548124792, 7877698046157210752, 8192571851807576113, 811805233677312666],
    [10120954910615364085, 18161100597590544284, 11787820911433853473, 2399951559872479101],
    [10829724305765064126, 10339945600740930821, 14939776015588299204, 1976591384704856995],
    [4391678205158103461, 12081792610057798912, 11465957525200582888, 3221777714779243433],
    [11029091259291030470, 14907571244466840285, 2008231690233070759, 584354542866472532],
    [3741189644808754244, 5336122838333180101, 17707653844744812696, 1810720036957165210],
    [4112502333249072887, 16638853303753855344, 5153179265171405354, 2004467652391931195],
    [15478134057783341818, 9690251914477806042, 1076134495890944087, 3215964862483084478],
    [8518256458019197797, 7204595270709607586, 14006637151170012246, 2568385958785273121],
    [8523570243714790306, 16661520918882904109, 17373934166120688234, 40567910629182006],
    [14359995256493350987, 2341206076910190293, 5866591652295599513, 1939244215152718392],
    [26098238516360271, 8570337290510669457, 16976952141088933849, 3177487041118860123],
    [5924321898600686511, 2441763613894872461, 17448350536122428448, 3299612729278537385],
    [8850806227231597658, 18017436945811395989, 10836082831464811737, 3362232787167643205],
    [1190459019871640111, 12848180788106283710, 2772415988409162162, 563690404398587704],
    [973974613954364972, 3668834197417650286, 3754469655224382440, 2550235168638295884],
    [10203605103019084721, 7023537713551715709, 13836353948458854074, 3412752947584271692],
    [2397801727679395567, 17523452427427451302, 17238023994324438960, 2994940682222582000],
    [14399530012481014609, 5756368334336480924, 16156117716969400218, 1015858607712694316],
    [10991806977045180287, 18419193668661749038, 14663866100434944011, 2524684867628129875],
    [7922211989439153491, 13924775220571171242, 122157713004900091, 3465535406601897481],
    [9478562444490547358, 7352788189399822052, 10579132337366522718, 1277439381186000350],
    [10658242688224736458, 2529390229131799527, 8218650571847041656, 1871455562607741463],
    [7686803764741674267, 10970664480139806967, 3678792621636540908, 2850560351815611920],
    [600773557762311042, 3865388151069802992, 6162101260398146404, 2542786380547416767],
    [6643233365240347297, 12352834209477022566, 25960993034182060, 515551613325656353],
    [5965511656475033382, 14557779400183954870, 11238197892527176782, 29917499869891589],
    [14183243739143090441, 11903376006969994437, 7225046312636445580, 38137396638793753],
    [5925593263362973559, 2654672361042766191, 3779378018660278939, 2974990708929711182],
    [9448676023314791072, 9514385565752657600, 8221799997709242804, 441500800843202000],
    [8362114093354124572, 11032147563569948439, 12037741477319007257, 3098709223185006854],
    [9707976719483464939, 686626752421992607, 1811942651260291103, 2722294990572317496],
    [11422536429538987613, 6424347383717181436, 10446603498032657758, 735104320958753536],
    [2441104272336393589, 11510486992668692930, 7761213732731370652, 76523624884399820],
    [8112605991720156373, 16499941151678612848, 8519426460759440649, 633556126072139018],
    [15281095756403395960, 5352302258990168045, 7219942978514440090, 3145992187852065800],
    [2979608422584477871, 2313480078318378707, 13883226328602254080, 2885781163420358755],
    [13143900244341445757, 2817209490104626233, 13427293993341520974, 2611036368940860863],
    [8647759855901479050, 1911989958817786652, 13234732296099681931, 2285761372460974197],
    [2187166284701849919, 4455073722484773207, 726340960934757774, 1115449504756897693],
    [15832241187341096425, 18417707004990930153, 1849951626402553920, 3070365053625781714],
    [16225192244377941093, 3932345351296423997, 7923358670358145498, 3292441896028510506],
    [11092899358235763610, 4189754034594032205, 14247101393540051668, 3012173605405428090],
    [10630211517692173937, 11103218712917527578, 15818302856826454342, 1499788944096129974],
    [16475138402489855254, 11497447163113733737, 3923265420519424390, 174020269048122183],
    [15527930647401881250, 1469777097282419952, 9464858132738218956, 629802971682475530],
    [1581002092052836848, 1497582235695352519, 2653291601829913105, 1870860496798886865],
    [17698592609223313431, 9865970122438623729, 12043665270046283518, 2276929691845860107],
    [10155495496018117811, 1683784949585782370, 2158270290578635825, 551830432694828854],
    [8567199496778518797, 2572331807087853103, 5857937308597469714, 2760672906710756356],
    [5207654060660914588, 7534172574022866794, 14313563710947781718, 2719253349266969791],
    [10531611660878601471, 4782422831818866034, 10255338481953683582, 2829008423976054774],
    [5245365453067337280, 4214995006664288748, 7483680236294613281, 741908813673254569],
    [7569742375889612842, 15512552606529409181, 6524698362399874317, 1598140113109508783],
    [12309103044070916037, 6934088745172660033, 2163635988286770552, 2130435348434279066],
    [3779056747078640988, 16430252977105769398, 8165163838191278324, 3357391811868987916],
    [18428345597452174617, 8464053526827968700, 9407205801447987363, 3164479114237627257],
    [1356567156093248372, 4524852900133227307, 730110115764496541, 3341201298839317898],
    [3202525046730235290, 18265978340284062629, 2038277458962409978, 3311452271911354566],
    [2117921319503781969, 9177057994695254687, 7838875167606125806, 2151203710355329639],
    [11705794160993273547, 8323155959613528623, 2439836961398007215, 3427783438671434051],
    [10701697302229038339, 3350456314792364054, 7687505573486808644, 667420770529635857],
    [15289296005719321675, 7323917197262499624, 5076025622719219050, 1012715260416627560],
    [17409816131929594167, 4007461908550970841, 4446810491010970858, 863595855594756070],
    [8163200734378067892, 200939071725933303, 4565077799751631429, 3275283980278992777],
    [594423551181313558, 566361663114003271, 2949508825847479997, 1190396185896134836],
    [5418875495071260232, 12194967121056225383, 2314367884048850375, 890165014064260787],
    [16737825098216013962, 18362935470651336495, 4840411567476195948, 1669153352148312256],
    [11471878116308823707, 5422397098533489310, 12823152680886099888, 1109521855653827454],
    [921381686877148924, 4178074860075525439, 8829082328326460857, 2360742534628864599],
    [3324496496491093667, 14249958387333979894, 18189169623785843150, 248822495912812798],
    [11985941081564125147, 6604498436846482458, 11242726895356822327, 2536857835112946550],
    [10954397342680496058, 9417063334711916457, 17058902994467399059, 738063435087776762],
    [8872826878686818053, 1012377036480115516, 242639108684276645, 65997886509451975],
    [9161080275406554328, 14337754285802557792, 3823864564237148639, 943085182411492251],
    [422987984630232271, 3683521400913747303, 7154597974233305052, 2901629807476585179],
    [2015489735994879423, 11529250380653511180, 14313740956790827860, 3038336858417871334],
    [10706967294103848538, 45697621713279227, 7802538260480810451, 1283353193281268626],
    [627668112864843625, 3993506187511489865, 12817583849721667951, 2955588958840897477],
    [11164448729072033569, 2515565815215248007, 14393894039586815821, 395828822253163763],
    [4340417880744620541, 4205688216642407052, 13620334406163158987, 2705614719722301845],
    [9029466522798836844, 8898095517833975899, 5805939591423794759, 675230978476145235],
    [15048003120605842977, 2702174462558530147, 3576827411782104678, 578313500411492406],
    [10129889288099128060, 13831127533772461133, 7891700311751397182, 3354245350313888514],
    [7665301101195432266, 1714066101333928558, 16131937463611539533, 1236992626833665664],
    [8791807146825819503, 15137314783150313460, 14016094627064734531, 572446609744257524],
    [11233472154585347670, 2379539473678250807, 14111277158605599439, 148533377758440735],
    [4493624059835398911, 1260878784534028913, 10677237412725530883, 753843446903691789],
    [7994111676963272290, 8338038420594185278, 7063989557722863726, 208072297204300110],
    [13777278387840829582, 7774293390666356418, 6994835883507097392, 1236092971293323350],
    [14930039751769525893, 15261894221242482780, 9312608332644873647, 1027224620066456130],
    [3893497371818141095, 13961237366081189777, 17657644853411394089, 1316995071212575480],
    [15731912511007063476, 3806683881636417028, 17139907224662248274, 209405746619613871],
    [13219316893297748002, 16824125843933074413, 17492669380002962334, 808465703185235226],
    [6803638613927304274, 12562094482684078799, 11732167699762516680, 93527433926564741],
    [169389557281371701, 6429627227858183745, 17552064216974603829, 838700173527397266],
    [16280565575249410315, 16310542919129358412, 2685889789395553124, 196982650014776157],
    [5616356562578165923, 3014582682805553041, 5502707309397776636, 2085276028655884074],
    [16314060910800643456, 6401917100927008649, 12773165280906125982, 2754740571506974019],
    [1015366844509117316, 15843804574101550849, 1311830959241592112, 2887347872678867257],
    [16612345464556565165, 18094269540124612864, 1569761246613460575, 1578091200822805787],
    [11044307633909875717, 14955127434603925392, 15974545852967749236, 1881367576198343859],
    [7827361377604035139, 1145670500998874126, 7886169657449758092, 654005490095303420],
    [7989009091462871640, 14439387444800280689, 10271249728685444121, 1154990795001153171],
    [4349680589564504527, 6467328880527819412, 11347093120625861744, 1324978255743471581],
    [615593403119455311, 13844045839147961886, 1191661104378970109, 320505081833586824],
    [5795657098595121350, 11049905165223947513, 1490489215925400573, 1032082603431559498],
    [13009316782803416384, 1539290567144388907, 7987073917820865855, 1805433820059970681],
    [8101589771400844164, 17176058981078963093, 3576368787524572360, 1801850145436736691],
    [9895366802429364071, 359069494169695459, 12025335035924384325, 1768189312267373332],
    [4158326998970466407, 6063188074827602348, 17955764330148620083, 1491669542491329459],
    [18165563099499136365, 14935339838532922309, 12033897133451002762, 2413834891535238752],
    [8425112091950554040, 5953697229170423588, 3540317011512558109, 3167268361884270166],
    [15922521750049620253, 4672719281394501687, 14719955264187997271, 479698709102287156],
    [15750632834814221946, 12928085278190687833, 9070673386065363106, 2791188819157489046],
    [12330708334969699096, 2358733681430042767, 158964150326913570, 980592176447744421],
    [16557102345709210428, 12603350885004677604, 13470048961818506305, 1375056968693967227],
    [6718085397905181991, 6362961633345481934, 8454065650295278893, 1944449593484485804],
    [328208354807739485, 8501131608923885265, 7950401892244721670, 2903004285687151029],
    [3660635041246561989, 1809043093008887779, 14422823941542423686, 1439105650692539028],
    [4595344614439974800, 14528277641243140578, 9028711803107273855, 3099343984482279853],
    [10221792935050796461, 4867980768152729510, 15082191862784486905, 3157062001905356891],
    [17735724140416712906, 18253364930740505067, 2680068401888238169, 3391807460912016830],
    [8061777782083599919, 15401713115324714427, 18446025958822097263, 797640806322592595],
    [1503432840977132444, 16232854320290562396, 2457063197224358714, 2615920250232500390],
    [15152483176757394682, 12169921183471948882, 7841655099785227199, 207157012224852118],
    [5954832704914781975, 10989207168720247532, 6767179598278113708, 2465203551911990684],
    [4632452865507404368, 18054681259392523243, 8008166821611526744, 819053288295391770],
    [15160727793112068366, 16995299052960483904, 6308187122630371741, 266818240615042288],
    [3931563633418363789, 5110993879323860019, 5870320209333059472, 3305599957921016464],
    [14501628718838290483, 17916823194565106058, 15501766732740048715, 3355902063658987803],
    [13052852401424699505, 15895177474202202207, 8721578681989872528, 1123379062363821481],
    [1221980192351945181, 4178735466387675158, 16466391257712721883, 178596073230540207],
    [16974739331684539953, 11853641750499284202, 3001723982731125320, 336780137540533888],
    [978373485421047692, 8372568917600189458, 1483833188362380766, 531197782841434581],
    [4666933637117073501, 5876665058356520436, 11253135415903512619, 852234289097613175],
    [15884373983723211997, 8111403652001794855, 4276441888690784561, 908546893264819837],
    [8866428312699848434, 1899572255188295879, 8227572145458643757, 2178340200163206709],
    [5894041548351985979, 8668440032302739694, 12395030351867429136, 873631513371565866],
    [8937248957884706698, 1279433951606206668, 4994740404025231581, 3077651958718141001],
    [17029710245604451432, 6677965431517268924, 11096960646915688675, 2047335043558627665],
    [5732305911749430600, 9073828671573934930, 10150812331105606226, 1599710035642046009],
    [10011466920930008745, 9091394326088025174, 6701518547973820387, 571831633973433080],
    [16864740443784839800, 1984399877798825926, 14016485366012444759, 994242657025515208],
];

const M_T13: [[u64; 4]; 169] = [
    [4156222283127006610, 2576966725917287048, 11469133228845717554, 938523259136714963],
    [6191534145221952873, 3390555444566475373, 15467715681119670074, 3111976289233385203],
    [5296773495730251258, 6821256314901034337, 17289938784009476097, 821212357641505726],
    [11632361144471566095, 15187290104846507774, 5865880534534933611, 1261345427510100985],
    [3382566304987030720, 15025621710563151230, 6208871011437276237, 817760083313279411],
    [9930994009022809178, 818472115569774776, 1358165537922908220, 3099838837379503168],
    [5980193944486321220, 190226155688025313, 16371164848031446209, 3007888066289001261],
    [2919396551198580407, 17943220441042295479, 12040068766413999505, 1821423053350454229],
    [9314588206698328528, 1721389724085450511, 6187820859417924346, 1942118387666999994],
    [5914884922121175747, 3833741754935206335, 1009767280434354432, 585283959895493904],
    [2438637046736236637, 15000153815796678017, 12207160111414100311, 2497336907372432012],
    [10093260217473075617, 8658337804537030111, 7536799500029032994, 803816128718551427],
    [1886127464563810550, 7305776834940125286, 11588391329762920867, 339007086387977328],
    [11138482299652290569, 13265416706758951282, 18134069499610077686, 3282121388096335262],
    [18015005696228941918, 17183822795142032309, 863542246500247680, 715848670349221149],
    [8289278386073354737, 3874093091987728659, 14219285048366807797, 1466166119966654864],
    [10976628014959805620, 1774287869803588021, 1822145494642739222, 1400322965363883878],
    [210406921669500227, 15575967250449134061, 8753360539663771676, 1786800819138576771],
    [5779639489881535252, 8128600885980009251, 10933902111409290014, 2483028938262197330],
    [4538479273044989007, 7028878048236473488, 13947143494983754385, 1594978304058585924],
    [12204883956257380862, 5578957875009969594, 9251956120094177956, 2987678262835419557],
    [14361426614748938699, 9432992343696561631, 508585988029579387, 3148217008974314769],
    [8655385854177018492, 1736863330222208803, 11354225642559056752, 330203633318291129],
    [5527178138238069150, 14285126163144528336, 899799923210844992, 1691114392137505959],
    [18303394512985295122, 18291417508409196530, 13816872809926651557, 1807022198661173314],
    [7278031143799317992, 4735022632294142894, 7872262683970443956, 3070949352362522182],
    [6929850980466786879, 4487156175874547055, 11305521237070620559, 555667650203486692],
    [3199263630111641681, 11488479728737885, 3072088774912015212, 2870689725155212457],
    [11531397659136611543, 13988910817897367246, 12452197043886384781, 2984174957324553009],
    [3899841979835044625, 3797149904811616090, 17653968344391138784, 3010229525716914208],
    [15539464153154011771, 17878535810514555445, 1712784599476165843, 1316305292646537655],
    [17738015494362259022, 2900285357608812025, 13488178297370121422, 3206045020149295267],
    [17374511539925816455, 2966716896408797907, 12249547284711212321, 1611175512196757062],
    [8281468328501390671, 4278671131463752600, 3863165073111449270, 145910917042380190],
    [1560405811145759906, 582284356918286074, 16933002432834618556, 664050947586107252],
    [8020931682669714264, 3920633416144555254, 16529310878387613639, 2178074322997868981],
    [7000958169354441848, 11004833171811036376, 11030462426443541219, 2690130720129533346],
    [12423755208293319763, 7510343311375223923, 17403569314935974130, 532910490974697541],
    [3740793436950713163, 16733341149645434835, 9233997987435354610, 3429701157827557263],
    [11989115087072075023, 1410348597508702422, 6232201024971843643, 2529218372333372789],
    [4843808549364103127, 9953264037088735868, 5317005076425183337, 1819228454306576224],
    [5444474958697745407, 13634134040389549312, 2827727845010459948, 746936017465684388],
    [14514663534648028964, 4570679811435633358, 4762959067081597502, 191458848487782375],
    [7033886115390171304, 7059024674366727467, 11850325547356354072, 687839926312717822],
    [18373761097116648624, 9181507856259723060, 2024759399965568550, 1159476766577132825],
    [16834712585818560177, 10964309710456384960, 4328255222960888756, 899415944214721990],
    [5557733799796303899, 1782275687493463358, 1793030320648034688, 1254869584252475868],
    [14865204843339318239, 11317903747536454681, 6414617612582827462, 289568456499656672],
    [12525247270976379353, 11003775163592523106, 10947973858251528226, 872609171033314500],
    [4597686119125751379, 17926495043561582303, 7532971639025860004, 1282154065396188026],
    [11777431256109613082, 6283502660159747267, 5467627770761500238, 1760650215429693708],
    [3361871064120637745, 12710724076600064792, 12885042294624305583, 2169988593426098646],
    [596847239515178282, 7209299815435195333, 11814805954131632299, 352541304722005082],
    [14607481924649840940, 16456538380732095149, 4439340973105106633, 2548208845395653106],
    [11205664478639517905, 8555315413312395111, 13801678630061767232, 1304201163100865499],
    [15529044287671509950, 13313038255055583607, 710616962820568739, 3121028695412865704],
    [9376314248762368805, 12512261853202099457, 15127582823441108167, 1095742037699668695],
    [7041475228950812819, 16610756263738246126, 13602552782211605623, 346824108189088336],
    [13224410955020836978, 7514107529075039182, 12235452849363852879, 3156041368930991694],
    [16904411389530147601, 613804859317424156, 13781696218336109202, 1144648074389703771],
    [1465006810694931673, 1489968311346622436, 3927981492322350443, 1995667585452276416],
    [9715011384548804027, 7310879001787220199, 958717391646913794, 1104729657139644238],
    [5287867968542801962, 5602542034148742241, 1867126922501446566, 1589588977156366208],
    [15518065325688997996, 12724800539987406976, 9894438692123593398, 3403995151585056352],
    [16029803019830499077, 14500980991256622586, 9798964205114145991, 1970812336860436809],
    [18253535533125793780, 112323020349665049, 11993618587708670387, 760181116924529757],
    [3180166422755109930, 723053938530230066, 13557307025815828143, 2158853626494910049],
    [15525341060735071736, 14832109342433138255, 13114823813245280541, 1388288540904782858],
    [7846604268261002633, 10527936183732745651, 10915860314682459438, 282123877547519397],
    [4592861281684654709, 16625518233219534741, 3149680647452626670, 495462621540451666],
    [7817093270569869920, 10877427732227514083, 3592209965820258143, 93530639065228722],
    [5002587333489930444, 1523426594405835546, 3100100173793070016, 437391025308803078],
    [1282247388617829998, 3876274682011191982, 16859219536645820679, 2499277619823414762],
    [11140541166192023007, 11804746728318236311, 5600277291742250709, 2999108570803107145],
    [15866078025696868635, 17896746453023590641, 9780053982665465929, 1170030147326295568],
    [2114886901745268786, 3715564468408928267, 5739684596875329954, 2336510763810260035],
    [8965725716209040518, 9818700921318317926, 3400619666804230954, 997650461252991186],
    [12279582700304590797, 10757880970990130950, 15270218870687729469, 2652069098941162791],
    [6635707400654659016, 12170831545671629483, 17017715475528253996, 1782211603218771551],
    [16711702989432593804, 3095374687583600688, 12093391716991935566, 2139775104219493924],
    [13401409036450054805, 15014403513956736595, 17556716080286621254, 683528118055009864],
    [8943459839651788319, 1326398006681121531, 17002900622950871963, 1517424904442956685],
    [8024034772867631474, 11721828528119387766, 466848876695184303, 1312786436598738336],
    [11636086479359710418, 7767716781044489991, 2768968153739398077, 3287251270559298344],
    [16398973607353394002, 1974721765594618198, 9526429831351731158, 322000028453262107],
    [11697298604031766710, 15380445503573865150, 3354893313663716693, 2128948800163990951],
    [15574936233930735881, 14588399945742708331, 7884646857565262676, 2335858523154592432],
    [7264565348698074794, 5984068310483710915, 14923204523792143181, 2943826976202952766],
    [13213082684111708440, 17591227327938905889, 4117432038129245231, 124204511405722691],
    [4998749247985560390, 13086299108898050979, 7537715174207616513, 2560352352709480086],
    [9663126704522931909, 340366317835313046, 7472968469408810085, 811695745165152192],
    [4137931148615820511, 10449412695405010632, 2654690054129597858, 198068339704001257],
    [9948783535081686479, 7749276963025247309, 1196324374058850378, 1893379254767590438],
    [7334538918964646404, 13129220068813661468, 9405094801683494098, 1188282315260506445],
    [3314346741049847110, 18077721505748942032, 366670458229195716, 3118095946294295938],
    [1798248109637686565, 6987026883788902145, 10539136784462721320, 2342691012134326853],
    [12726745619471697031, 10742263333198523018, 9115693511467035979, 3475263933573338576],
    [3340032884869948923, 12980701270731233638, 4970092723861255653, 2982316726788572920],
    [8466678295268320307, 6560375335978322372, 9920850731444442337, 340013877010664438],
    [14110375598079931164, 11078997750489431490, 2923991006942153254, 2708148913086706338],
    [7696447433203408881, 3904874852608178890, 14689081875358347838, 2851233568562338975],
    [11373243846313582383, 6340097761029835609, 17268216835539712221, 3139633349402695255],
    [9902850743928176044, 11114491039002326287, 17058626493232876443, 2318853420406552089],
    [16340116219861922732, 11664602595395438407, 11051819278066504112, 2749263933633685814],
    [7333476479067550098, 12937440736602535961, 8905096784388345338, 491175696571814242],
    [6503213390694568362, 10905988067689223650, 15485145390497121710, 913809388159818598],
    [12962003948989813166, 11372220811563227686, 3974856551703170067, 1307569170548989322],
    [11747421782194173074, 5991975923576399117, 3156549445396184659, 2560689834420501242],
    [16327717470506070962, 994614544540829137, 10109282824219184731, 2568988316016742179],
    [16300587234717829472, 2569501156219954360, 13886487578384967333, 2657469271349485071],
    [16888705425522272248, 2527555801928970342, 16262773682701540481, 648814610626257066],
    [14858334965229294295, 4655147256049353064, 17112218245802309978, 739124307512127445],
    [8954711619719921781, 14426236325317483720, 16323768606801423086, 3442950784522320925],
    [2765604462446427834, 18176528215067876556, 5508432289265632668, 2271753655433031008],
    [4499318692041553372, 14252826299261217680, 2403574147162492814, 1742206487791049254],
    [5981560270152784560, 11771108630765244231, 8372522680381861699, 467577632690926841],
    [1926150444824776063, 10146031456580143686, 14209427668074318503, 1057007971088624467],
    [11714301757080886248, 11948686290112646695, 1174361908730085061, 1778748087432378463],
    [5448738923446496233, 17165801824043237, 17417959385600829783, 1824054258536407629],
    [3179852807796944518, 16366272294217608831, 246665133967966863, 2131661400743796006],
    [5652308915945600666, 4421976841984392641, 6993786808221055572, 247899566688230726],
    [11696745542693585266, 18046560568070370942, 10861000649550592791, 2513139037383868393],
    [1329596765006859449, 16173749336478716069, 2921275956860619329, 1326400198319800707],
    [15952623350888276173, 16668386656275088414, 15149997470664743108, 243744170780763883],
    [6539935666538380087, 1980719720669065442, 13383457934168992066, 1927131268706804563],
    [726022817531162023, 15442588220780559008, 4489669512507920478, 1560469002923734423],
    [1676688383117600557, 1190387942125955373, 7267650833640096098, 1014803866054245416],
    [16430200669741562709, 9350015279417676233, 18045496101137082444, 2689367358901573500],
    [3588501979450476963, 16781106304107290851, 973081265548589304, 2445673093771498530],
    [15256513869776659556, 8248126140198345869, 3042694960605158439, 2354783039219961461],
    [7859581207912083659, 3680156647267927892, 13740914325891555659, 1289058373613339505],
    [11562414709102485939, 13971556397076503985, 7781481372104032915, 3264324321420675646],
    [1954036446773880801, 3344901933345435035, 6525769392858920541, 2751870152224405226],
    [12644161184473169944, 17902347025083726586, 5725354411966455247, 3073790441605843110],
    [18355177152526973325, 16958542729460458384, 5934444251471043491, 3450631486176175978],
    [9237303288216457697, 12825486437619490886, 15362716261962355078, 2864768779019742483],
    [5742136674693172655, 14069893693136827288, 8858005568186206035, 931065555586856742],
    [214729479870260177, 3168179993983408812, 15475713381113203350, 2962257666648315584],
    [6559639150494048480, 12431370545634665556, 10392245343534190217, 1303493394460324580],
    [13015081040160258201, 5382328087418747023, 10835429684202697429, 1850528184737316563],
    [6551170348872469285, 4075506424154119026, 5644681017070499457, 3429890127844870717],
    [13982609866703412918, 8051367758535321607, 2464332626477746560, 3207230223922015082],
    [8335876261400883782, 1745789012627482603, 3001100076740392898, 528210283165109741],
    [16127976257387652100, 4380607600339160975, 297990129792059828, 3307285516846842845],
    [6143280624390519308, 1767312091574588777, 11629669997555725587, 170770569091162283],
    [3575280166892054238, 3362683121302559967, 8213845199068909166, 725733058061349411],
    [13055757658958295089, 3863168400517265147, 9536692932507239058, 1999391379089830098],
    [3865812897777009382, 14149147265008245775, 3096941919164820665, 2587532804802642317],
    [3008425168723161889, 9402854417546464417, 4143637911473200957, 1551631864299089361],
    [2269388185283930768, 18188613687271001660, 8415121170575731279, 2567522409533490857],
    [14398685065172802918, 2186885732558982984, 17844679687583442669, 237641914863093294],
    [15836889352541468696, 18414710471775069823, 16275300359115496864, 2467323399442554520],
    [12026135555344111292, 17500065895664225, 10771767757380454392, 43269615937971036],
    [9099485175083159187, 10696522425043978463, 10133129876417510587, 3182671081487909621],
    [13903967401998623694, 8054689978147000846, 3143623026566916680, 315919524994871334],
    [7674572004774874249, 12176559662991647433, 9298429763068194238, 2566108520155440385],
    [115304693174306338, 18031839111177089969, 3036983702799964125, 2485059262449488463],
    [1366194499183935037, 850222378995938475, 14293214961614899880, 1641498043765152306],
    [6782188735028508204, 8320515606410762563, 10578172417441393890, 2874277775996694768],
    [7104678664402081025, 5788349103154457762, 12486675483628199938, 1863677076438614600],
    [11076121366183614073, 16496297997550877763, 12167222899915531365, 2404734610908786166],
    [8022943098596505253, 14172731390460966407, 11239888195485842840, 68518362452923291],
    [3750450595168812269, 15438648161421020690, 18248400322178509274, 2224070671245396448],
    [8777214732395262015, 3296357799410703559, 15480718323494612107, 639920279630787726],
    [12573261807583812562, 10141162304384443726, 3599741122235033498, 3407721216023466832],
    [3736658596595466184, 12697387120716929024, 18156466052144322229, 2423117179425531631],
    [14113370957820065885, 15654503523071928372, 5372708722281097336, 223832654441554334],
    [2242964646051611735, 10435420888007138977, 13139697409395917293, 147055317425391004],
    [4753341709649038825, 622827003846660644, 1964636521678053185, 1869301094511500264],
];

/// The shipped additive-constant data of width 13.
pub closed spec fn c13_data() -> Seq<[u64; 4]> {
    C_T13@
}

/// The shipped mixing-matrix data of width 13, row-major.
pub closed spec fn m13_data() -> Seq<[u64; 4]> {
    M_T13@
}

/// The additive round constants of width 13, pinned to the shipped data.
pub fn c_t13() -> (v: Vec<[u64; 4]>)
    ensures
        v@ == c13_data(),
        v@.len() == 949,
{
    slice_to_vec(C_T13.as_slice())
}

/// The mixing matrix of width 13, pinned to the shipped data.
pub fn m_t13() -> (v: Vec<[u64; 4]>)
    ensures
        v@ == m13_data(),
        v@.len() == 169,
{
    slice_to_vec(M_T13.as_slice())
}

} // verus!
